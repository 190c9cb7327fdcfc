//! What holds of all artifacts.

use std::sync::Arc;
use vstd::prelude::*;
use vstd::utf8::{
    decode_utf8, encode_utf8, encode_utf8_decode_utf8, encode_utf8_valid_utf8, valid_utf8,
};
use crate::artifact_content::{skips_types, ArtifactContent};
use crate::config::{Config, ProjectConfig, TypegenConfig, TypegenLanguage};
use crate::differences::{group_same_but_for, same_but_for, same_but_types};
use crate::fragment::{assignable_fragment_text, fragment_text, read_only_fragment_text};
use crate::ir::{FragmentDefinition, OperationDefinition, QueryID};
use crate::operation::{operation_text, split_operation_text, updatable_query_text};
use crate::rendered::{ArtifactGeneratedTypes, Node, Rendered, Rendering, TypeExports};
use crate::replace::{contains_text, lemma_replace_keeps_tail, occurs_at, replace_all};
use crate::rescript::{fragment_rescript_text, operation_rescript_text};
use crate::sections::{
    content_start, disable_lint_header, docblock, docblock_end, export_generated_node,
    import_type_from, variable_value_with_type,
};
use crate::signing::{
    is_hex_digit, is_signed_file, is_signed_with, lemma_signed_around_placeholder, lemma_signed_holds_no_placeholder,
    placeholder, signature, signed, signed_with, source_digest,
};

verus! {

/// One content has one file: the settings, the rendered text and the content decide
/// every byte.
pub proof fn lemma_file_is_unique(
    content: ArtifactContent,
    config: Config,
    project_config: ProjectConfig,
    rendered: Rendered,
    skip_types: bool,
    bytes: Seq<u8>,
    other_bytes: Seq<u8>,
)
    requires
        content.is_file(config, project_config, rendered, skip_types, bytes),
        content.is_file(config, project_config, rendered, skip_types, other_bytes),
    ensures
        bytes == other_bytes,
{
}

/// Every file but that of a generic artifact is text in UTF-8, and where it is not signed
/// it is the text of the artifact.
pub proof fn lemma_file_is_text(
    content: ArtifactContent,
    config: Config,
    project_config: ProjectConfig,
    rendered: Rendered,
    skip_types: bool,
    bytes: Seq<u8>,
)
    requires
        content.is_file(config, project_config, rendered, skip_types, bytes),
        !(content is Generic),
    ensures
        valid_utf8(bytes),
        !(content is UpdatableQuery || content is SplitOperation) ==> decode_utf8(bytes)
            == content.text(config, project_config, rendered, skip_types),
{
    broadcast use {encode_utf8_decode_utf8, encode_utf8_valid_utf8};

}

/// Two renderings hold the same text as far as it was asked for.
pub open spec fn same_where_asked(
    rendering: Rendering,
    rendered: Rendered,
    other_rendered: Rendered,
) -> bool {
    &&& rendering.type_exports != TypeExports::Nothing ==> rendered.type_exports@
        == other_rendered.type_exports@
    &&& rendering.node != Node::Nothing ==> {
        &&& rendered.comments_for_generated@ == other_rendered.comments_for_generated@
        &&& rendered.top_level_statements@ == other_rendered.top_level_statements@
        &&& rendered.node@ == other_rendered.node@
    }
    &&& rendering.node == Node::Request ==> rendered.request_id == other_rendered.request_id
}

/// A file depends on no text that was not asked for.
pub proof fn lemma_only_what_was_asked_is_read(
    content: ArtifactContent,
    config: Config,
    project_config: ProjectConfig,
    rendered: Rendered,
    other_rendered: Rendered,
    skip_types: bool,
    bytes: Seq<u8>,
)
    requires
        same_where_asked(content.needed_rendering(skip_types), rendered, other_rendered),
    ensures
        content.is_file(config, project_config, rendered, skip_types, bytes) == content.is_file(
            config,
            project_config,
            other_rendered,
            skip_types,
            bytes,
        ),
{
}

/// The file of an operation is a ReScript module whatever the language of the project.
/// It depends on no shared setting, on no setting of the project but whether variables
/// are listed, on no hash of the source, on no text of the query, and it never leaves
/// types out.
pub proof fn lemma_operation_file_ignores_settings(
    normalization_operation: Arc<OperationDefinition>,
    reader_operation: Arc<OperationDefinition>,
    typegen_operation: Arc<OperationDefinition>,
    id_and_text_hash: Option<QueryID>,
    source_hashes: (String, String),
    query_texts: (String, String),
    configs: (Config, Config),
    project_configs: (ProjectConfig, ProjectConfig),
    skip_types: (bool, bool),
    rendered: Rendered,
    bytes: Seq<u8>,
)
    requires
        project_configs.0.variable_names_comment == project_configs.1.variable_names_comment,
    ensures
        (ArtifactContent::Operation {
            normalization_operation,
            reader_operation,
            typegen_operation,
            source_hash: source_hashes.0,
            text: query_texts.0,
            id_and_text_hash,
        }).is_file(configs.0, project_configs.0, rendered, skip_types.0, bytes)
            == (ArtifactContent::Operation {
            normalization_operation,
            reader_operation,
            typegen_operation,
            source_hash: source_hashes.1,
            text: query_texts.1,
            id_and_text_hash,
        }).is_file(configs.1, project_configs.1, rendered, skip_types.1, bytes),
{
}

/// Of its definitions the ReScript module of an operation shows these alone: the
/// variables of the operation for normalization and whether it can be preloaded, the
/// place and the dependencies of the operation for readers but no indirect ones, and the
/// kind of the operation for types.
pub proof fn lemma_operation_module_depends_on(
    project_config: ProjectConfig,
    normalization_operations: (OperationDefinition, OperationDefinition),
    reader_operations: (OperationDefinition, OperationDefinition),
    typegen_operations: (OperationDefinition, OperationDefinition),
    rendered: Rendered,
    id_and_text_hash: Option<QueryID>,
)
    requires
        normalization_operations.0.variable_names@ == normalization_operations.1.variable_names@,
        normalization_operations.0.preloadable == normalization_operations.1.preloadable,
        reader_operations.0.source_location_text == reader_operations.1.source_location_text,
        ({
            let directives = reader_operations.0.directives;
            let other_directives = reader_operations.1.directives;
            &&& directives.data_driven_dependency == other_directives.data_driven_dependency
            &&& directives.react_flight_local_components
                == other_directives.react_flight_local_components
            &&& directives.relay_client_component == other_directives.relay_client_component
        }),
        typegen_operations.0.kind == typegen_operations.1.kind,
    ensures
        operation_rescript_text(
            project_config,
            normalization_operations.0,
            reader_operations.0,
            typegen_operations.0,
            rendered,
            id_and_text_hash,
        ) == operation_rescript_text(
            project_config,
            normalization_operations.1,
            reader_operations.1,
            typegen_operations.1,
            rendered,
            id_and_text_hash,
        ),
{
}

/// The file of a fragment is a ReScript module whatever the language of the project. It
/// depends on no setting, on no hash of the source and on no fragment for types.
pub proof fn lemma_fragment_file_ignores_settings(
    reader_fragment: Arc<FragmentDefinition>,
    typegen_fragments: (Arc<FragmentDefinition>, Arc<FragmentDefinition>),
    source_hashes: (String, String),
    configs: (Config, Config),
    project_configs: (ProjectConfig, ProjectConfig),
    skip_types: (bool, bool),
    rendered: Rendered,
    bytes: Seq<u8>,
)
    ensures
        (ArtifactContent::Fragment {
            reader_fragment,
            typegen_fragment: typegen_fragments.0,
            source_hash: source_hashes.0,
        }).is_file(configs.0, project_configs.0, rendered, skip_types.0, bytes)
            == (ArtifactContent::Fragment {
            reader_fragment,
            typegen_fragment: typegen_fragments.1,
            source_hash: source_hashes.1,
        }).is_file(configs.1, project_configs.1, rendered, skip_types.1, bytes),
{
}

/// The file of a split operation shows its types whether or not types are left out.
pub proof fn lemma_split_operation_never_skips_types(
    content: ArtifactContent,
    config: Config,
    project_config: ProjectConfig,
    rendered: Rendered,
    bytes: Seq<u8>,
)
    requires
        content is SplitOperation,
    ensures
        content.is_file(config, project_config, rendered, true, bytes) == content.is_file(
            config,
            project_config,
            rendered,
            false,
            bytes,
        ),
{
}

/// The module of a fragment that is assigned shows nothing of the fragment for readers:
/// neither its node nor its hash nor its dependencies.
pub proof fn lemma_assignable_fragment_ignores_reader(
    config: Config,
    project_config: ProjectConfig,
    reader_fragments: (FragmentDefinition, FragmentDefinition),
    typegen_fragment: FragmentDefinition,
    generated_types: (ArtifactGeneratedTypes, ArtifactGeneratedTypes),
    rendered: (Rendered, Rendered),
    named_validator_export: Seq<char>,
    source_hashes: (Seq<char>, Seq<char>),
    skip_types: bool,
)
    requires
        typegen_fragment.directives.assignable,
        rendered.0.type_exports@ == rendered.1.type_exports@,
    ensures
        fragment_text(
            config,
            project_config,
            reader_fragments.0,
            typegen_fragment,
            generated_types.0,
            rendered.0,
            named_validator_export,
            source_hashes.0,
            skip_types,
        ) == fragment_text(
            config,
            project_config,
            reader_fragments.1,
            typegen_fragment,
            generated_types.1,
            rendered.1,
            named_validator_export,
            source_hashes.1,
            skip_types,
        ),
{
}

/// JavaScript names no types: neither an import nor a definition nor an export depends
/// on one.
pub proof fn lemma_javascript_names_no_types(
    typegen_config: TypegenConfig,
    name: Seq<char>,
    value: Seq<char>,
    from: Seq<char>,
    types: (Seq<char>, Seq<char>),
    forced_types: (Option<Seq<char>>, Option<Seq<char>>),
)
    requires
        typegen_config.language == TypegenLanguage::JavaScript,
    ensures
        import_type_from(typegen_config.language, types.0, from) == Seq::<char>::empty(),
        variable_value_with_type(typegen_config.language, name, types.0, value)
            == variable_value_with_type(typegen_config.language, name, types.1, value),
        export_generated_node(typegen_config, name, forced_types.0) == export_generated_node(
            typegen_config,
            name,
            forced_types.1,
        ),
{
}

/// In ReScript nothing is imported, defined or turned off, and nothing is exported but
/// by an eager module.
pub proof fn lemma_rescript_defines_nothing(
    typegen_config: TypegenConfig,
    name: Seq<char>,
    type_: Seq<char>,
    value: Seq<char>,
    from: Seq<char>,
    forced_type: Option<Seq<char>>,
)
    requires
        typegen_config.language == TypegenLanguage::ReScript,
    ensures
        disable_lint_header(typegen_config.language) == Seq::<char>::empty(),
        import_type_from(typegen_config.language, type_, from) == Seq::<char>::empty(),
        variable_value_with_type(typegen_config.language, name, type_, value) == Seq::<
            char,
        >::empty(),
        !typegen_config.eager_es_modules ==> export_generated_node(
            typegen_config,
            name,
            forced_type,
        ) == Seq::<char>::empty(),
{
}

/// Eager modules export their node in the same way in every language.
pub proof fn lemma_eager_modules_export_alike(
    typegen_configs: (TypegenConfig, TypegenConfig),
    name: Seq<char>,
    forced_types: (Option<Seq<char>>, Option<Seq<char>>),
)
    requires
        typegen_configs.0.eager_es_modules,
        typegen_configs.1.eager_es_modules,
    ensures
        export_generated_node(typegen_configs.0, name, forced_types.0) == export_generated_node(
            typegen_configs.1,
            name,
            forced_types.1,
        ),
{
}

/// What begins a text still begins it when more is appended.
broadcast proof fn lemma_prefix_stays(front: Seq<char>, text: Seq<char>, more: Seq<char>)
    requires
        front.is_prefix_of(text),
    ensures
        #[trigger] front.is_prefix_of(text + more),
{
    assert((text + more).subrange(0, front.len() as int) =~= text.subrange(0, front.len() as int));
}

/// The text of an updatable query or of a split operation begins with a docblock.
pub proof fn lemma_signed_artifact_begins_with_docblock(
    content: ArtifactContent,
    config: Config,
    project_config: ProjectConfig,
    rendered: Rendered,
    skip_types: bool,
)
    requires
        content is UpdatableQuery || content is SplitOperation,
    ensures
        docblock(config, project_config.typegen_config.language, None).is_prefix_of(
            content.text(config, project_config, rendered, skip_types),
        ),
{
    broadcast use lemma_prefix_stays;

    let start = docblock(config, project_config.typegen_config.language, None);
    assert(start.is_prefix_of(start));
}

/// The module of an operation begins with a docblock, which names the hash of the
/// operation's persisted text.
pub proof fn lemma_operation_begins_with_docblock(
    config: Config,
    project_config: ProjectConfig,
    normalization_operation: OperationDefinition,
    reader_operation: OperationDefinition,
    generated_types: ArtifactGeneratedTypes,
    rendered: Rendered,
    source_hash: Seq<char>,
    id_and_text_hash: Option<QueryID>,
    skip_types: bool,
)
    ensures
        docblock(config, project_config.typegen_config.language, id_and_text_hash).is_prefix_of(
            operation_text(
                config,
                project_config,
                normalization_operation,
                reader_operation,
                generated_types,
                rendered,
                source_hash,
                id_and_text_hash,
                skip_types,
            ),
        ),
{
    broadcast use lemma_prefix_stays;

    let start = docblock(config, project_config.typegen_config.language, id_and_text_hash);
    assert(start.is_prefix_of(start));
}

/// The module of a fragment begins with a docblock, whether the fragment is read or
/// assigned.
pub proof fn lemma_fragment_begins_with_docblock(
    config: Config,
    project_config: ProjectConfig,
    reader_fragment: FragmentDefinition,
    typegen_fragment: FragmentDefinition,
    generated_types: ArtifactGeneratedTypes,
    rendered: Rendered,
    named_validator_export: Seq<char>,
    source_hash: Seq<char>,
    skip_types: bool,
)
    ensures
        docblock(config, project_config.typegen_config.language, None).is_prefix_of(
            fragment_text(
                config,
                project_config,
                reader_fragment,
                typegen_fragment,
                generated_types,
                rendered,
                named_validator_export,
                source_hash,
                skip_types,
            ),
        ),
{
    broadcast use lemma_prefix_stays;

    let start = docblock(config, project_config.typegen_config.language, None);
    assert(start.is_prefix_of(start));
}

/// In a signed text that begins with a docblock, the signature stands in the docblock
/// behind the header and the marker of generated files.
pub proof fn lemma_docblock_is_signed(
    config: Config,
    language: TypegenLanguage,
    query: Option<QueryID>,
    rest: Seq<char>,
    digest: Seq<char>,
)
    ensures
        signed_with(docblock(config, language, query) + rest, digest) == signed_with(
            content_start(config),
            digest,
        ) + (" * "@ + "\x40generated "@) + signature(digest) + signed_with(
            docblock_end(config, language, query) + rest,
            digest,
        ),
{
    let mark = " * "@ + "\x40generated "@;
    let before = content_start(config) + mark;
    let after = docblock_end(config, language, query) + rest;
    assert(docblock(config, language, query) + rest =~= before + placeholder() + after);
    lemma_signed_around_placeholder(before, after, digest);
    reveal_strlit(" * ");
    reveal_strlit("\x40generated ");
    reveal_strlit("<<SignedSource::*O*zOeWoEQle#+L!plEphiEmie\x40IsG>>");
    lemma_replace_keeps_tail(content_start(config), mark, placeholder(), signature(digest));
}

/// A signed file that was made of a text with a docblock carries the digest of that text
/// as its signature, and no placeholder is left in it.
pub proof fn lemma_signed_file_is_signed(
    config: Config,
    language: TypegenLanguage,
    query: Option<QueryID>,
    text: Seq<char>,
    bytes: Seq<u8>,
)
    requires
        docblock(config, language, query).is_prefix_of(text),
        is_signed_file(text, bytes),
    ensures
        contains_text(
            decode_utf8(bytes),
            "\x40generated "@ + signature(source_digest(text)),
        ),
        !contains_text(decode_utf8(bytes), placeholder()),
{
    let digest = source_digest(text);
    let start = docblock(config, language, query);
    let rest = text.skip(start.len() as int);
    let result = signed(text);
    encode_utf8_decode_utf8(result);
    assert(text =~= start + rest);
    lemma_docblock_is_signed(config, language, query, rest, digest);
    let word = "\x40generated "@ + signature(digest);
    let i = (signed_with(content_start(config), digest) + " * "@).len() as int;
    assert(result.subrange(i, i + word.len()) =~= word);
    assert(occurs_at(result, word, i));
    lemma_signed_holds_no_placeholder(text, digest);
}

/// A signed file reads as the text that was signed, with a signature in the place of every
/// placeholder and nothing else changed.
pub proof fn lemma_signed_file_reads_as_signed_text(text: Seq<char>, bytes: Seq<u8>)
    requires
        is_signed_file(text, bytes),
    ensures
        decode_utf8(bytes) == replace_all(
            text,
            "<<SignedSource::*O*zOeWoEQle#+L!plEphiEmie\x40IsG>>"@,
            "SignedSource<<"@ + source_digest(text) + ">>"@,
        ),
        source_digest(text).len() == 32,
        forall|i: int|
            0 <= i < 32 ==> '0' <= #[trigger] source_digest(text)[i] <= '9' || 'a'
                <= source_digest(text)[i] <= 'f',
{
    encode_utf8_decode_utf8(signed(text));
}

/// A signed text is signed with a digest of the right shape, and holds the signature in the
/// place of every placeholder.
pub proof fn lemma_what_is_signed(text: Seq<char>, digest: Seq<char>, result: Seq<char>)
    ensures
        is_signed_with(text, digest, result) <==> digest.len() == 32 && (forall|i: int|
            0 <= i < 32 ==> '0' <= #[trigger] digest[i] <= '9' || 'a' <= digest[i] <= 'f')
            && result == replace_all(text, placeholder(), signature(digest)),
{
    if is_signed_with(text, digest, result) {
        assert forall|i: int| 0 <= i < 32 implies '0' <= #[trigger] digest[i] <= '9' || 'a'
            <= digest[i] <= 'f' by {
            assert(is_hex_digit(digest[i]));
        }
    }
}

/// The file of an updatable query or of a split operation carries the digest of its
/// text as its signature, and no placeholder is left in it.
pub proof fn lemma_artifact_is_signed(
    content: ArtifactContent,
    config: Config,
    project_config: ProjectConfig,
    rendered: Rendered,
    skip_types: bool,
    bytes: Seq<u8>,
)
    requires
        content is UpdatableQuery || content is SplitOperation,
        content.is_file(config, project_config, rendered, skip_types, bytes),
    ensures
        contains_text(
            decode_utf8(bytes),
            "\x40generated "@ + signature(
                source_digest(content.text(config, project_config, rendered, skip_types)),
            ),
        ),
        !contains_text(decode_utf8(bytes), placeholder()),
{
    lemma_signed_artifact_begins_with_docblock(
        content,
        config,
        project_config,
        rendered,
        skip_types,
    );
    lemma_signed_file_is_signed(
        config,
        project_config.typegen_config.language,
        None,
        content.text(config, project_config, rendered, skip_types),
        bytes,
    );
}

/// The file of an operation is the ReScript module of that operation, unsigned, and it can
/// be written exactly where the dependencies of the operation for readers are constant
/// strings.
pub proof fn lemma_file_of_operation(
    normalization_operation: Arc<OperationDefinition>,
    reader_operation: Arc<OperationDefinition>,
    typegen_operation: Arc<OperationDefinition>,
    source_hash: String,
    text: String,
    id_and_text_hash: Option<QueryID>,
    config: Config,
    project_config: ProjectConfig,
    rendered: Rendered,
    skip_types: bool,
    bytes: Seq<u8>,
)
    ensures
        ({
            let content = ArtifactContent::Operation {
                normalization_operation,
                reader_operation,
                typegen_operation,
                source_hash,
                text,
                id_and_text_hash,
            };
            &&& content.is_file(config, project_config, rendered, skip_types, bytes) == (bytes
                == encode_utf8(
                operation_rescript_text(
                    project_config,
                    *normalization_operation,
                    *reader_operation,
                    *typegen_operation,
                    rendered,
                    id_and_text_hash,
                ),
            ))
            &&& content.can_be_written() == match reader_operation.directives.data_driven_dependency {
                Some(directive) => directive.arguments_are_text(),
                None => true,
            }
            &&& content.needed_rendering(skip_types).type_exports
                == TypeExports::OperationAndNormalization
            &&& content.needed_rendering(skip_types).node == Node::Request
        }),
{
}

/// The file of a fragment is the ReScript module of that fragment, unsigned, and it can be
/// written exactly where the dependencies of the fragment for readers are constant strings.
pub proof fn lemma_file_of_fragment(
    reader_fragment: Arc<FragmentDefinition>,
    typegen_fragment: Arc<FragmentDefinition>,
    source_hash: String,
    config: Config,
    project_config: ProjectConfig,
    rendered: Rendered,
    skip_types: bool,
    bytes: Seq<u8>,
)
    ensures
        ({
            let content = ArtifactContent::Fragment {
                reader_fragment,
                typegen_fragment,
                source_hash,
            };
            &&& content.is_file(config, project_config, rendered, skip_types, bytes) == (bytes
                == encode_utf8(fragment_rescript_text(*reader_fragment, rendered)))
            &&& content.can_be_written() == match reader_fragment.directives.data_driven_dependency {
                Some(directive) => directive.arguments_are_text(),
                None => true,
            }
            &&& content.needed_rendering(skip_types).type_exports == TypeExports::Fragment
            &&& content.needed_rendering(skip_types).node == Node::Fragment
        }),
{
}

/// The file of an updatable query is the signed module of that query, which can always be
/// written.
pub proof fn lemma_file_of_updatable_query(
    reader_operation: Arc<OperationDefinition>,
    typegen_operation: Arc<OperationDefinition>,
    source_hash: String,
    config: Config,
    project_config: ProjectConfig,
    rendered: Rendered,
    skip_types: bool,
    bytes: Seq<u8>,
)
    ensures
        ({
            let content = ArtifactContent::UpdatableQuery {
                reader_operation,
                typegen_operation,
                source_hash,
            };
            &&& content.is_file(config, project_config, rendered, skip_types, bytes)
                == is_signed_file(
                updatable_query_text(
                    config,
                    project_config,
                    *reader_operation,
                    rendered,
                    source_hash@,
                    skip_types,
                ),
                bytes,
            )
            &&& content.can_be_written()
            &&& content.needed_rendering(skip_types).type_exports == if skip_types {
                TypeExports::Nothing
            } else {
                TypeExports::OperationAndReader
            }
            &&& content.needed_rendering(skip_types).node == Node::UpdatableQuery
        }),
{
}

/// The file of a split operation is the signed module of that operation, which can always
/// be written.
pub proof fn lemma_file_of_split_operation(
    normalization_operation: Arc<OperationDefinition>,
    typegen_operation: Option<Arc<OperationDefinition>>,
    source_hash: String,
    config: Config,
    project_config: ProjectConfig,
    rendered: Rendered,
    skip_types: bool,
    bytes: Seq<u8>,
)
    ensures
        ({
            let content = ArtifactContent::SplitOperation {
                normalization_operation,
                typegen_operation,
                source_hash,
            };
            &&& content.is_file(config, project_config, rendered, skip_types, bytes)
                == is_signed_file(
                split_operation_text(
                    config,
                    project_config,
                    typegen_operation,
                    rendered,
                    source_hash@,
                ),
                bytes,
            )
            &&& content.can_be_written()
            &&& content.needed_rendering(skip_types).type_exports == if typegen_operation is Some {
                TypeExports::SplitOperation
            } else {
                TypeExports::Nothing
            }
            &&& content.needed_rendering(skip_types).node == Node::Operation
        }),
{
}

/// The file of a generic artifact is its content, byte for byte, and nothing has to be
/// rendered for it.
pub proof fn lemma_file_of_generic(
    content: Vec<u8>,
    config: Config,
    project_config: ProjectConfig,
    rendered: Rendered,
    skip_types: bool,
    bytes: Seq<u8>,
)
    ensures
        ({
            let artifact = ArtifactContent::Generic { content };
            &&& artifact.is_file(config, project_config, rendered, skip_types, bytes) == (bytes
                == content@)
            &&& artifact.can_be_written()
            &&& artifact.needed_rendering(skip_types).type_exports == TypeExports::Nothing
            &&& artifact.needed_rendering(skip_types).node == Node::Nothing
        }),
{
}

/// Types are left out where the project decides so for the artifact, and only there.
pub proof fn lemma_types_are_skipped_on_demand(decision: bool)
    ensures
        skips_types(None) == false,
        skips_types(Some(decision)) == decision,
{
}

/// The types of an artifact are asked for exactly where its text shows them.
pub proof fn lemma_types_are_asked_for_where_shown(
    content: ArtifactContent,
    config: Config,
    project_config: ProjectConfig,
    rendered: Rendered,
    other_rendered: Rendered,
    skip_types: bool,
)
    requires
        same_but_types(rendered, other_rendered),
        !(content is Generic),
    ensures
        content.needed_rendering(skip_types).type_exports != TypeExports::Nothing ==> same_but_for(
            content.text(config, project_config, rendered, skip_types),
            content.text(config, project_config, other_rendered, skip_types),
            rendered.type_exports@,
            other_rendered.type_exports@,
        ),
        content.needed_rendering(skip_types).type_exports == TypeExports::Nothing ==> content.text(
            config,
            project_config,
            rendered,
            skip_types,
        ) == content.text(config, project_config, other_rendered, skip_types),
{
    broadcast use group_same_but_for;

}

/// A fragment that is marked as assignable is written as one that is assigned, and every
/// other as one that is read.
pub proof fn lemma_mark_decides_kind_of_fragment(
    config: Config,
    project_config: ProjectConfig,
    reader_fragment: FragmentDefinition,
    typegen_fragment: FragmentDefinition,
    generated_types: ArtifactGeneratedTypes,
    rendered: Rendered,
    named_validator_export: Seq<char>,
    source_hash: Seq<char>,
    skip_types: bool,
)
    ensures
        fragment_text(
            config,
            project_config,
            reader_fragment,
            typegen_fragment,
            generated_types,
            rendered,
            named_validator_export,
            source_hash,
            skip_types,
        ) == if typegen_fragment.directives.assignable {
            assignable_fragment_text(
                config,
                project_config,
                rendered.type_exports@,
                named_validator_export,
                skip_types,
            )
        } else {
            read_only_fragment_text(
                config,
                project_config,
                reader_fragment,
                generated_types,
                rendered,
                source_hash,
                skip_types,
            )
        },
{
}

} // verus!
