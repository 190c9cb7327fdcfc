//! The text of the artifacts that a GraphQL compiler writes for operations and
//! fragments, as verified functions from plain values to text.

pub mod annotations;
pub mod artifact_content;
pub mod config;
pub mod differences;
pub mod fragment;
pub mod ir;
pub mod laws;
pub mod layout;
pub mod operation;
pub mod parts;
pub mod rendered;
pub mod replace;
pub mod rescript;
pub mod sections;
pub mod signing;
pub mod text;
