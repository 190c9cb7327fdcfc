//! How the files of two calls relate that differ in one of their inputs.

use std::sync::Arc;
use vstd::prelude::*;
use crate::annotations::{
    data_driven_dependencies, indirect_data_driven_dependencies, react_flight_client_dependencies,
    react_flight_server_dependencies, variables_comment,
};
use crate::config::{Config, ProjectConfig, TypegenLanguage};
use crate::fragment::{assignable_fragment_text, read_only_fragment_text};
use crate::ir::{Directives, FragmentDefinition, OperationDefinition, QueryID};
use crate::operation::{operation_text, split_operation_text, updatable_query_text};
use crate::rendered::{ArtifactGeneratedTypes, Rendered};
use crate::rescript::{fragment_rescript_text, operation_rescript_text};

verus! {

/// Two texts are the same but for one place, where `part` stands in the first and
/// `other_part` in the second.
pub open spec fn same_but_for(
    text: Seq<char>,
    other_text: Seq<char>,
    part: Seq<char>,
    other_part: Seq<char>,
) -> bool {
    exists|front: Seq<char>, back: Seq<char>|
        text == #[trigger] (front + part + back) && other_text == front + other_part + back
}

/// A text is the same as another but for the two texts themselves.
pub broadcast proof fn lemma_same_but_for_all(part: Seq<char>, other_part: Seq<char>)
    ensures
        #[trigger] same_but_for(part, other_part, part, other_part),
{
    let none = Seq::<char>::empty();
    assert(part =~= none + part + none);
    assert(other_part =~= none + other_part + none);
}

/// The same text behind two texts adds no difference.
pub broadcast proof fn lemma_same_but_for_behind(
    text: Seq<char>,
    other_text: Seq<char>,
    part: Seq<char>,
    other_part: Seq<char>,
    more: Seq<char>,
)
    requires
        same_but_for(text, other_text, part, other_part),
    ensures
        #[trigger] same_but_for(text + more, other_text + more, part, other_part),
{
    let (front, back) = choose|front: Seq<char>, back: Seq<char>|
        text == #[trigger] (front + part + back) && other_text == front + other_part + back;
    assert(text + more =~= front + part + (back + more));
    assert(other_text + more =~= front + other_part + (back + more));
}

/// The same text in front of two texts adds no difference.
pub broadcast proof fn lemma_same_but_for_in_front(
    text: Seq<char>,
    other_text: Seq<char>,
    part: Seq<char>,
    other_part: Seq<char>,
    more: Seq<char>,
)
    requires
        same_but_for(text, other_text, part, other_part),
    ensures
        #[trigger] same_but_for(more + text, more + other_text, part, other_part),
{
    let (front, back) = choose|front: Seq<char>, back: Seq<char>|
        text == #[trigger] (front + part + back) && other_text == front + other_part + back;
    assert(more + text =~= (more + front) + part + back);
    assert(more + other_text =~= (more + front) + other_part + back);
}

/// Texts that are the same but for one place are different where those places are.
pub proof fn lemma_difference_shows(
    text: Seq<char>,
    other_text: Seq<char>,
    part: Seq<char>,
    other_part: Seq<char>,
)
    requires
        same_but_for(text, other_text, part, other_part),
    ensures
        (text == other_text) == (part == other_part),
{
    let (front, back) = choose|front: Seq<char>, back: Seq<char>|
        text == #[trigger] (front + part + back) && other_text == front + other_part + back;
    if text == other_text {
        assert(text.len() == front.len() + part.len() + back.len());
        assert(other_text.len() == front.len() + other_part.len() + back.len());
        assert forall|i: int| 0 <= i < part.len() implies part[i] == other_part[i] by {
            assert((front + part + back)[front.len() + i] == part[i]);
            assert((front + other_part + back)[front.len() + i] == other_part[i]);
        }
        assert(part =~= other_part);
    }
}

/// The facts that relate texts which differ in one place.
pub broadcast group group_same_but_for {
    lemma_same_but_for_all,
    lemma_same_but_for_behind,
    lemma_same_but_for_in_front,
}

/// Two renderings agree on everything but the node.
pub open spec fn same_but_node(rendered: Rendered, other: Rendered) -> bool {
    &&& rendered.comments_for_generated@ == other.comments_for_generated@
    &&& rendered.type_exports@ == other.type_exports@
    &&& rendered.top_level_statements@ == other.top_level_statements@
    &&& rendered.request_id == other.request_id
}

/// Two renderings agree on everything but the types.
pub open spec fn same_but_types(rendered: Rendered, other: Rendered) -> bool {
    &&& rendered.comments_for_generated@ == other.comments_for_generated@
    &&& rendered.top_level_statements@ == other.top_level_statements@
    &&& rendered.node@ == other.node@
    &&& rendered.request_id == other.request_id
}

/// Two renderings agree on everything but the statements in front of the node.
pub open spec fn same_but_statements(rendered: Rendered, other: Rendered) -> bool {
    &&& rendered.comments_for_generated@ == other.comments_for_generated@
    &&& rendered.type_exports@ == other.type_exports@
    &&& rendered.node@ == other.node@
    &&& rendered.request_id == other.request_id
}

/// Two renderings agree on everything but the comment that marks a ReScript file.
pub open spec fn same_but_comments(rendered: Rendered, other: Rendered) -> bool {
    &&& rendered.type_exports@ == other.type_exports@
    &&& rendered.top_level_statements@ == other.top_level_statements@
    &&& rendered.node@ == other.node@
    &&& rendered.request_id == other.request_id
}

/// The module of an updatable query shows the node that was printed, in every language that
/// defines variables: modules with different nodes differ, and in the node alone.
pub proof fn lemma_updatable_query_shows_node(
    config: Config,
    project_config: ProjectConfig,
    reader_operation: OperationDefinition,
    rendered: Rendered,
    other_rendered: Rendered,
    source_hash: Seq<char>,
    skip_types: bool,
)
    requires
        same_but_node(rendered, other_rendered),
        project_config.typegen_config.language != TypegenLanguage::ReScript,
    ensures
        same_but_for(
            updatable_query_text(
                config, project_config, reader_operation, rendered, source_hash, skip_types,
            ),
            updatable_query_text(
                config, project_config, reader_operation, other_rendered, source_hash,
                skip_types,
            ),
            rendered.node@,
            other_rendered.node@,
        ),
{
    broadcast use group_same_but_for;

}

/// The module of an updatable query shows the hash of its source, in every language that
/// defines variables.
pub proof fn lemma_updatable_query_shows_source_hash(
    config: Config,
    project_config: ProjectConfig,
    reader_operation: OperationDefinition,
    rendered: Rendered,
    source_hash: Seq<char>,
    other_source_hash: Seq<char>,
    skip_types: bool,
)
    requires
        project_config.typegen_config.language != TypegenLanguage::ReScript,
    ensures
        same_but_for(
            updatable_query_text(
                config, project_config, reader_operation, rendered, source_hash, skip_types,
            ),
            updatable_query_text(
                config, project_config, reader_operation, rendered, other_source_hash,
                skip_types,
            ),
            source_hash,
            other_source_hash,
        ),
{
    broadcast use group_same_but_for;

}

/// The module of a split operation shows the node that was printed, in every language that
/// defines variables: modules with different nodes differ, and in the node alone.
pub proof fn lemma_split_operation_shows_node(
    config: Config,
    project_config: ProjectConfig,
    typegen_operation: Option<Arc<OperationDefinition>>,
    rendered: Rendered,
    other_rendered: Rendered,
    source_hash: Seq<char>,
)
    requires
        same_but_node(rendered, other_rendered),
        project_config.typegen_config.language != TypegenLanguage::ReScript,
    ensures
        same_but_for(
            split_operation_text(config, project_config, typegen_operation, rendered, source_hash),
            split_operation_text(
                config, project_config, typegen_operation, other_rendered, source_hash,
            ),
            rendered.node@,
            other_rendered.node@,
        ),
{
    broadcast use group_same_but_for;

}

/// The module of a split operation shows the hash of its source, in every language that
/// defines variables.
pub proof fn lemma_split_operation_shows_source_hash(
    config: Config,
    project_config: ProjectConfig,
    typegen_operation: Option<Arc<OperationDefinition>>,
    rendered: Rendered,
    source_hash: Seq<char>,
    other_source_hash: Seq<char>,
)
    requires
        project_config.typegen_config.language != TypegenLanguage::ReScript,
    ensures
        same_but_for(
            split_operation_text(config, project_config, typegen_operation, rendered, source_hash),
            split_operation_text(
                config, project_config, typegen_operation, rendered, other_source_hash,
            ),
            source_hash,
            other_source_hash,
        ),
{
    broadcast use group_same_but_for;

}

/// The module of an operation shows the node that was printed, in every language that
/// defines variables: modules with different nodes differ, and in the node alone.
pub proof fn lemma_operation_shows_node(
    config: Config,
    project_config: ProjectConfig,
    normalization_operation: OperationDefinition,
    reader_operation: OperationDefinition,
    generated_types: ArtifactGeneratedTypes,
    rendered: Rendered,
    other_rendered: Rendered,
    source_hash: Seq<char>,
    id_and_text_hash: Option<QueryID>,
    skip_types: bool,
)
    requires
        same_but_node(rendered, other_rendered),
        project_config.typegen_config.language != TypegenLanguage::ReScript,
    ensures
        same_but_for(
            operation_text(
                config, project_config, normalization_operation, reader_operation,
                generated_types, rendered, source_hash, id_and_text_hash, skip_types,
            ),
            operation_text(
                config, project_config, normalization_operation, reader_operation,
                generated_types, other_rendered, source_hash, id_and_text_hash, skip_types,
            ),
            rendered.node@,
            other_rendered.node@,
        ),
{
    broadcast use group_same_but_for;

}

/// The module of an operation shows the hash of its source, in every language that
/// defines variables.
pub proof fn lemma_operation_shows_source_hash(
    config: Config,
    project_config: ProjectConfig,
    normalization_operation: OperationDefinition,
    reader_operation: OperationDefinition,
    generated_types: ArtifactGeneratedTypes,
    rendered: Rendered,
    source_hash: Seq<char>,
    other_source_hash: Seq<char>,
    id_and_text_hash: Option<QueryID>,
    skip_types: bool,
)
    requires
        project_config.typegen_config.language != TypegenLanguage::ReScript,
    ensures
        same_but_for(
            operation_text(
                config, project_config, normalization_operation, reader_operation,
                generated_types, rendered, source_hash, id_and_text_hash, skip_types,
            ),
            operation_text(
                config, project_config, normalization_operation, reader_operation,
                generated_types, rendered, other_source_hash, id_and_text_hash, skip_types,
            ),
            source_hash,
            other_source_hash,
        ),
{
    broadcast use group_same_but_for;

}

/// The module of a fragment that is read shows the node that was printed, in every language that
/// defines variables: modules with different nodes differ, and in the node alone.
pub proof fn lemma_read_only_fragment_shows_node(
    config: Config,
    project_config: ProjectConfig,
    reader_fragment: FragmentDefinition,
    generated_types: ArtifactGeneratedTypes,
    rendered: Rendered,
    other_rendered: Rendered,
    source_hash: Seq<char>,
    skip_types: bool,
)
    requires
        same_but_node(rendered, other_rendered),
        project_config.typegen_config.language != TypegenLanguage::ReScript,
    ensures
        same_but_for(
            read_only_fragment_text(
                config, project_config, reader_fragment, generated_types, rendered, source_hash,
                skip_types,
            ),
            read_only_fragment_text(
                config, project_config, reader_fragment, generated_types, other_rendered,
                source_hash, skip_types,
            ),
            rendered.node@,
            other_rendered.node@,
        ),
{
    broadcast use group_same_but_for;

}

/// The module of a fragment that is read shows the hash of its source, in every language that
/// defines variables.
pub proof fn lemma_read_only_fragment_shows_source_hash(
    config: Config,
    project_config: ProjectConfig,
    reader_fragment: FragmentDefinition,
    generated_types: ArtifactGeneratedTypes,
    rendered: Rendered,
    source_hash: Seq<char>,
    other_source_hash: Seq<char>,
    skip_types: bool,
)
    requires
        project_config.typegen_config.language != TypegenLanguage::ReScript,
    ensures
        same_but_for(
            read_only_fragment_text(
                config, project_config, reader_fragment, generated_types, rendered, source_hash,
                skip_types,
            ),
            read_only_fragment_text(
                config, project_config, reader_fragment, generated_types, rendered,
                other_source_hash, skip_types,
            ),
            source_hash,
            other_source_hash,
        ),
{
    broadcast use group_same_but_for;

}

/// The module of a split operation shows the statements in front of its node, in every
/// language.
pub proof fn lemma_split_operation_shows_statements(
    config: Config,
    project_config: ProjectConfig,
    typegen_operation: Option<Arc<OperationDefinition>>,
    rendered: Rendered,
    other_rendered: Rendered,
    source_hash: Seq<char>,
)
    requires
        same_but_statements(rendered, other_rendered),
    ensures
        same_but_for(
            split_operation_text(config, project_config, typegen_operation, rendered, source_hash),
            split_operation_text(
                config, project_config, typegen_operation, other_rendered, source_hash,
            ),
            rendered.top_level_statements@,
            other_rendered.top_level_statements@,
        ),
{
    broadcast use group_same_but_for;

}

/// The module of an operation shows the statements in front of its node, in every
/// language.
pub proof fn lemma_operation_shows_statements(
    config: Config,
    project_config: ProjectConfig,
    normalization_operation: OperationDefinition,
    reader_operation: OperationDefinition,
    generated_types: ArtifactGeneratedTypes,
    rendered: Rendered,
    other_rendered: Rendered,
    source_hash: Seq<char>,
    id_and_text_hash: Option<QueryID>,
    skip_types: bool,
)
    requires
        same_but_statements(rendered, other_rendered),
    ensures
        same_but_for(
            operation_text(
                config, project_config, normalization_operation, reader_operation,
                generated_types, rendered, source_hash, id_and_text_hash, skip_types,
            ),
            operation_text(
                config, project_config, normalization_operation, reader_operation,
                generated_types, other_rendered, source_hash, id_and_text_hash, skip_types,
            ),
            rendered.top_level_statements@,
            other_rendered.top_level_statements@,
        ),
{
    broadcast use group_same_but_for;

}

/// The module of a fragment that is read shows the statements in front of its node, in every
/// language.
pub proof fn lemma_read_only_fragment_shows_statements(
    config: Config,
    project_config: ProjectConfig,
    reader_fragment: FragmentDefinition,
    generated_types: ArtifactGeneratedTypes,
    rendered: Rendered,
    other_rendered: Rendered,
    source_hash: Seq<char>,
    skip_types: bool,
)
    requires
        same_but_statements(rendered, other_rendered),
    ensures
        same_but_for(
            read_only_fragment_text(
                config, project_config, reader_fragment, generated_types, rendered, source_hash,
                skip_types,
            ),
            read_only_fragment_text(
                config, project_config, reader_fragment, generated_types, other_rendered,
                source_hash, skip_types,
            ),
            rendered.top_level_statements@,
            other_rendered.top_level_statements@,
        ),
{
    broadcast use group_same_but_for;

}

/// The module of an updatable query shows its types in every language, exactly where they
/// are not left out.
pub proof fn lemma_updatable_query_shows_types(
    config: Config,
    project_config: ProjectConfig,
    reader_operation: OperationDefinition,
    rendered: Rendered,
    other_rendered: Rendered,
    source_hash: Seq<char>,
    skip_types: bool,
    other_skip_types: bool,
)
    requires
        same_but_types(rendered, other_rendered),
    ensures
        same_but_for(
            updatable_query_text(
                config, project_config, reader_operation, rendered, source_hash, skip_types,
            ),
            updatable_query_text(
                config, project_config, reader_operation, other_rendered, source_hash,
                other_skip_types,
            ),
            if skip_types { Seq::empty() } else { rendered.type_exports@ },
            if other_skip_types { Seq::empty() } else { other_rendered.type_exports@ },
        ),
{
    broadcast use group_same_but_for;

}

/// The module of an operation shows its types in every language, exactly where they
/// are not left out.
pub proof fn lemma_operation_shows_types(
    config: Config,
    project_config: ProjectConfig,
    normalization_operation: OperationDefinition,
    reader_operation: OperationDefinition,
    generated_types: ArtifactGeneratedTypes,
    rendered: Rendered,
    other_rendered: Rendered,
    source_hash: Seq<char>,
    id_and_text_hash: Option<QueryID>,
    skip_types: bool,
    other_skip_types: bool,
)
    requires
        same_but_types(rendered, other_rendered),
    ensures
        same_but_for(
            operation_text(
                config, project_config, normalization_operation, reader_operation,
                generated_types, rendered, source_hash, id_and_text_hash, skip_types,
            ),
            operation_text(
                config, project_config, normalization_operation, reader_operation,
                generated_types, other_rendered, source_hash, id_and_text_hash,
                other_skip_types,
            ),
            if skip_types { Seq::empty() } else { rendered.type_exports@ },
            if other_skip_types { Seq::empty() } else { other_rendered.type_exports@ },
        ),
{
    broadcast use group_same_but_for;

}

/// The module of a fragment that is read shows its types in every language, exactly where they
/// are not left out.
pub proof fn lemma_read_only_fragment_shows_types(
    config: Config,
    project_config: ProjectConfig,
    reader_fragment: FragmentDefinition,
    generated_types: ArtifactGeneratedTypes,
    rendered: Rendered,
    other_rendered: Rendered,
    source_hash: Seq<char>,
    skip_types: bool,
    other_skip_types: bool,
)
    requires
        same_but_types(rendered, other_rendered),
    ensures
        same_but_for(
            read_only_fragment_text(
                config, project_config, reader_fragment, generated_types, rendered, source_hash,
                skip_types,
            ),
            read_only_fragment_text(
                config, project_config, reader_fragment, generated_types, other_rendered,
                source_hash, other_skip_types,
            ),
            if skip_types { Seq::empty() } else { rendered.type_exports@ },
            if other_skip_types { Seq::empty() } else { other_rendered.type_exports@ },
        ),
{
    broadcast use group_same_but_for;

}

/// The module of a fragment that is assigned shows its types in every language, exactly
/// where they are not left out.
pub proof fn lemma_assignable_fragment_shows_types(
    config: Config,
    project_config: ProjectConfig,
    type_exports: Seq<char>,
    other_type_exports: Seq<char>,
    named_validator_export: Seq<char>,
    skip_types: bool,
    other_skip_types: bool,
)
    ensures
        same_but_for(
            assignable_fragment_text(
                config, project_config, type_exports, named_validator_export, skip_types,
            ),
            assignable_fragment_text(
                config, project_config, other_type_exports, named_validator_export,
                other_skip_types,
            ),
            if skip_types { Seq::empty() } else { type_exports },
            if other_skip_types { Seq::empty() } else { other_type_exports },
        ),
{
    broadcast use group_same_but_for;

}

/// The module of a fragment that is assigned shows its validator in every language.
pub proof fn lemma_assignable_fragment_shows_validator(
    config: Config,
    project_config: ProjectConfig,
    type_exports: Seq<char>,
    named_validator_export: Seq<char>,
    other_named_validator_export: Seq<char>,
    skip_types: bool,
)
    ensures
        same_but_for(
            assignable_fragment_text(
                config, project_config, type_exports, named_validator_export, skip_types,
            ),
            assignable_fragment_text(
                config, project_config, type_exports, other_named_validator_export, skip_types,
            ),
            named_validator_export,
            other_named_validator_export,
        ),
{
    broadcast use group_same_but_for;

}

/// The module of a split operation shows its types and an end of line in every language,
/// exactly where it has an operation for types.
pub proof fn lemma_split_operation_shows_types(
    config: Config,
    project_config: ProjectConfig,
    typegen_operation: Option<Arc<OperationDefinition>>,
    other_typegen_operation: Option<Arc<OperationDefinition>>,
    rendered: Rendered,
    other_rendered: Rendered,
    source_hash: Seq<char>,
)
    requires
        same_but_types(rendered, other_rendered),
    ensures
        same_but_for(
            split_operation_text(config, project_config, typegen_operation, rendered, source_hash),
            split_operation_text(
                config, project_config, other_typegen_operation, other_rendered, source_hash,
            ),
            if typegen_operation is Some { rendered.type_exports@ + "\n"@ } else { Seq::empty() },
            if other_typegen_operation is Some { other_rendered.type_exports@ + "\n"@ } else { Seq::empty() },
        ),
{
    broadcast use group_same_but_for;

}

/// The module of an operation in ReScript always shows the node that was printed.
pub proof fn lemma_operation_rescript_shows_node(
    project_config: ProjectConfig,
    normalization_operation: OperationDefinition,
    reader_operation: OperationDefinition,
    typegen_operation: OperationDefinition,
    rendered: Rendered,
    other_rendered: Rendered,
    id_and_text_hash: Option<QueryID>,
)
    requires
        same_but_node(rendered, other_rendered),
    ensures
        same_but_for(
            operation_rescript_text(
                project_config, normalization_operation, reader_operation, typegen_operation,
                rendered, id_and_text_hash,
            ),
            operation_rescript_text(
                project_config, normalization_operation, reader_operation, typegen_operation,
                other_rendered, id_and_text_hash,
            ),
            rendered.node@,
            other_rendered.node@,
        ),
{
    broadcast use group_same_but_for;

}

/// The module of an operation in ReScript always shows its types.
pub proof fn lemma_operation_rescript_shows_types(
    project_config: ProjectConfig,
    normalization_operation: OperationDefinition,
    reader_operation: OperationDefinition,
    typegen_operation: OperationDefinition,
    rendered: Rendered,
    other_rendered: Rendered,
    id_and_text_hash: Option<QueryID>,
)
    requires
        same_but_types(rendered, other_rendered),
    ensures
        same_but_for(
            operation_rescript_text(
                project_config, normalization_operation, reader_operation, typegen_operation,
                rendered, id_and_text_hash,
            ),
            operation_rescript_text(
                project_config, normalization_operation, reader_operation, typegen_operation,
                other_rendered, id_and_text_hash,
            ),
            rendered.type_exports@,
            other_rendered.type_exports@,
        ),
{
    broadcast use group_same_but_for;

}

/// The module of an operation in ReScript always shows the comment that marks it.
pub proof fn lemma_operation_rescript_shows_comments(
    project_config: ProjectConfig,
    normalization_operation: OperationDefinition,
    reader_operation: OperationDefinition,
    typegen_operation: OperationDefinition,
    rendered: Rendered,
    other_rendered: Rendered,
    id_and_text_hash: Option<QueryID>,
)
    requires
        same_but_comments(rendered, other_rendered),
    ensures
        same_but_for(
            operation_rescript_text(
                project_config, normalization_operation, reader_operation, typegen_operation,
                rendered, id_and_text_hash,
            ),
            operation_rescript_text(
                project_config, normalization_operation, reader_operation, typegen_operation,
                other_rendered, id_and_text_hash,
            ),
            rendered.comments_for_generated@,
            other_rendered.comments_for_generated@,
        ),
{
    broadcast use group_same_but_for;

}

/// The module of a fragment in ReScript always shows the node that was printed.
pub proof fn lemma_fragment_rescript_shows_node(
    reader_fragment: FragmentDefinition,
    rendered: Rendered,
    other_rendered: Rendered,
)
    requires
        same_but_node(rendered, other_rendered),
    ensures
        same_but_for(
            fragment_rescript_text(reader_fragment, rendered),
            fragment_rescript_text(reader_fragment, other_rendered),
            rendered.node@,
            other_rendered.node@,
        ),
{
    broadcast use group_same_but_for;

}

/// The module of a fragment in ReScript always shows its types.
pub proof fn lemma_fragment_rescript_shows_types(
    reader_fragment: FragmentDefinition,
    rendered: Rendered,
    other_rendered: Rendered,
)
    requires
        same_but_types(rendered, other_rendered),
    ensures
        same_but_for(
            fragment_rescript_text(reader_fragment, rendered),
            fragment_rescript_text(reader_fragment, other_rendered),
            rendered.type_exports@,
            other_rendered.type_exports@,
        ),
{
    broadcast use group_same_but_for;

}

/// The module of a fragment in ReScript always shows the comment that marks it.
pub proof fn lemma_fragment_rescript_shows_comments(
    reader_fragment: FragmentDefinition,
    rendered: Rendered,
    other_rendered: Rendered,
)
    requires
        same_but_comments(rendered, other_rendered),
    ensures
        same_but_for(
            fragment_rescript_text(reader_fragment, rendered),
            fragment_rescript_text(reader_fragment, other_rendered),
            rendered.comments_for_generated@,
            other_rendered.comments_for_generated@,
        ),
{
    broadcast use group_same_but_for;

}

/// An operation is registered exactly where it can be preloaded and its query has an id,
/// whatever else holds of it: without that its module is the same, but for the statement.
pub proof fn lemma_operation_registers_preloadable(
    config: Config,
    project_config: ProjectConfig,
    normalization_operation: OperationDefinition,
    other_normalization_operation: OperationDefinition,
    reader_operation: OperationDefinition,
    generated_types: ArtifactGeneratedTypes,
    rendered: Rendered,
    source_hash: Seq<char>,
    id_and_text_hash: Option<QueryID>,
    skip_types: bool,
)
    requires
        normalization_operation.variable_names@ == other_normalization_operation.variable_names@,
    ensures
        same_but_for(
            operation_text(
                config, project_config, normalization_operation, reader_operation,
                generated_types, rendered, source_hash, id_and_text_hash, skip_types,
            ),
            operation_text(
                config, project_config, other_normalization_operation, reader_operation,
                generated_types, rendered, source_hash, id_and_text_hash, skip_types,
            ),
            if normalization_operation.preloadable && id_and_text_hash is Some {
                match project_config.typegen_config.language {
                    TypegenLanguage::Flow =>
                        "require('relay-runtime').PreloadableQueryRegistry.set((node.params/*: any*/).id, node);\n\n"@,
                    TypegenLanguage::JavaScript =>
                        "require('relay-runtime').PreloadableQueryRegistry.set(node.params.id, node);\n\n"@,
                    TypegenLanguage::TypeScript =>
                        "import { PreloadableQueryRegistry } from 'relay-runtime';\nPreloadableQueryRegistry.set(node.params.id, node);\n\n"@,
                    TypegenLanguage::ReScript => "\n\n"@,
                }
            } else {
                Seq::empty()
            },
            if other_normalization_operation.preloadable && id_and_text_hash is Some {
                match project_config.typegen_config.language {
                    TypegenLanguage::Flow =>
                        "require('relay-runtime').PreloadableQueryRegistry.set((node.params/*: any*/).id, node);\n\n"@,
                    TypegenLanguage::JavaScript =>
                        "require('relay-runtime').PreloadableQueryRegistry.set(node.params.id, node);\n\n"@,
                    TypegenLanguage::TypeScript =>
                        "import { PreloadableQueryRegistry } from 'relay-runtime';\nPreloadableQueryRegistry.set(node.params.id, node);\n\n"@,
                    TypegenLanguage::ReScript => "\n\n"@,
                }
            } else {
                Seq::empty()
            },
        ),
{
    broadcast use group_same_but_for;

}

/// An operation in ReScript is registered exactly where it can be preloaded and its query
/// has an id, whatever else holds of it.
pub proof fn lemma_operation_rescript_registers_preloadable(
    project_config: ProjectConfig,
    normalization_operation: OperationDefinition,
    other_normalization_operation: OperationDefinition,
    reader_operation: OperationDefinition,
    typegen_operation: OperationDefinition,
    rendered: Rendered,
    id_and_text_hash: Option<QueryID>,
)
    requires
        normalization_operation.variable_names@ == other_normalization_operation.variable_names@,
    ensures
        same_but_for(
            operation_rescript_text(
                project_config, normalization_operation, reader_operation, typegen_operation,
                rendered, id_and_text_hash,
            ),
            operation_rescript_text(
                project_config, other_normalization_operation, reader_operation,
                typegen_operation, rendered, id_and_text_hash,
            ),
            if normalization_operation.preloadable && id_and_text_hash is Some {
                "type operationId\ntype operationTypeParams = {id: operationId}\n@get external getOperationTypeParams: operationType => operationTypeParams = \"params\"\n@module(\"relay-runtime\") @scope(\"PreloadableQueryRegistry\") external setPreloadQuery: (operationType, operationId) => unit = \"set\"\ngetOperationTypeParams(node).id->setPreloadQuery(node)\n"@
            } else {
                Seq::empty()
            },
            if other_normalization_operation.preloadable && id_and_text_hash is Some {
                "type operationId\ntype operationTypeParams = {id: operationId}\n@get external getOperationTypeParams: operationType => operationTypeParams = \"params\"\n@module(\"relay-runtime\") @scope(\"PreloadableQueryRegistry\") external setPreloadQuery: (operationType, operationId) => unit = \"set\"\ngetOperationTypeParams(node).id->setPreloadQuery(node)\n"@
            } else {
                Seq::empty()
            },
        ),
{
    broadcast use group_same_but_for;

}

/// The module of an operation lists its variables exactly where the project asks for
/// it.
pub proof fn lemma_operation_lists_variables(
    config: Config,
    project_config: ProjectConfig,
    other_project_config: ProjectConfig,
    normalization_operation: OperationDefinition,
    other_normalization_operation: OperationDefinition,
    reader_operation: OperationDefinition,
    generated_types: ArtifactGeneratedTypes,
    rendered: Rendered,
    source_hash: Seq<char>,
    id_and_text_hash: Option<QueryID>,
    skip_types: bool,
)
    requires
        project_config.typegen_config == other_project_config.typegen_config,
        normalization_operation.preloadable == other_normalization_operation.preloadable,
    ensures
        same_but_for(
            operation_text(
                config, project_config, normalization_operation, reader_operation,
                generated_types, rendered, source_hash, id_and_text_hash, skip_types,
            ),
            operation_text(
                config, other_project_config, other_normalization_operation, reader_operation,
                generated_types, rendered, source_hash, id_and_text_hash, skip_types,
            ),
            if project_config.variable_names_comment {
                variables_comment(normalization_operation.variable_names@)
            } else {
                Seq::empty()
            },
            if other_project_config.variable_names_comment {
                variables_comment(other_normalization_operation.variable_names@)
            } else {
                Seq::empty()
            },
        ),
{
    broadcast use group_same_but_for;

}

/// The module of an operation in ReScript lists its variables exactly where the project asks for
/// it.
pub proof fn lemma_operation_rescript_lists_variables(
    project_config: ProjectConfig,
    other_project_config: ProjectConfig,
    normalization_operation: OperationDefinition,
    other_normalization_operation: OperationDefinition,
    reader_operation: OperationDefinition,
    typegen_operation: OperationDefinition,
    rendered: Rendered,
    id_and_text_hash: Option<QueryID>,
)
    requires
        project_config.typegen_config == other_project_config.typegen_config,
        normalization_operation.preloadable == other_normalization_operation.preloadable,
    ensures
        same_but_for(
            operation_rescript_text(
                project_config, normalization_operation, reader_operation, typegen_operation,
                rendered, id_and_text_hash,
            ),
            operation_rescript_text(
                other_project_config, other_normalization_operation, reader_operation,
                typegen_operation, rendered, id_and_text_hash,
            ),
            if project_config.variable_names_comment {
                variables_comment(normalization_operation.variable_names@)
            } else {
                Seq::empty()
            },
            if other_project_config.variable_names_comment {
                variables_comment(other_normalization_operation.variable_names@)
            } else {
                Seq::empty()
            },
        ),
{
    broadcast use group_same_but_for;

}

/// Two lists of directives agree on their data-driven dependencies of either kind.
pub open spec fn same_dependencies(directives: Directives, other: Directives) -> bool {
    &&& directives.data_driven_dependency == other.data_driven_dependency
    &&& directives.indirect_data_driven_dependency == other.indirect_data_driven_dependency
}

/// The module of an operation lists its server components in every case.
pub proof fn lemma_operation_lists_server_components(
    config: Config,
    project_config: ProjectConfig,
    normalization_operation: OperationDefinition,
    reader_operation: OperationDefinition,
    other_reader_operation: OperationDefinition,
    generated_types: ArtifactGeneratedTypes,
    rendered: Rendered,
    source_hash: Seq<char>,
    id_and_text_hash: Option<QueryID>,
    skip_types: bool,
)
    requires
        same_dependencies(reader_operation.directives, other_reader_operation.directives),
        reader_operation.directives.relay_client_component == other_reader_operation.directives.relay_client_component,
        reader_operation.source_location_text == other_reader_operation.source_location_text,
    ensures
        same_but_for(
            operation_text(
                config, project_config, normalization_operation, reader_operation,
                generated_types, rendered, source_hash, id_and_text_hash, skip_types,
            ),
            operation_text(
                config, project_config, normalization_operation, other_reader_operation,
                generated_types, rendered, source_hash, id_and_text_hash, skip_types,
            ),
            react_flight_server_dependencies(reader_operation.directives.react_flight_local_components),
            react_flight_server_dependencies(other_reader_operation.directives.react_flight_local_components),
        ),
{
    broadcast use group_same_but_for;

}

/// The module of an operation lists its client components in every case.
pub proof fn lemma_operation_lists_client_components(
    config: Config,
    project_config: ProjectConfig,
    normalization_operation: OperationDefinition,
    reader_operation: OperationDefinition,
    other_reader_operation: OperationDefinition,
    generated_types: ArtifactGeneratedTypes,
    rendered: Rendered,
    source_hash: Seq<char>,
    id_and_text_hash: Option<QueryID>,
    skip_types: bool,
)
    requires
        same_dependencies(reader_operation.directives, other_reader_operation.directives),
        reader_operation.directives.react_flight_local_components == other_reader_operation.directives.react_flight_local_components,
        reader_operation.source_location_text == other_reader_operation.source_location_text,
    ensures
        same_but_for(
            operation_text(
                config, project_config, normalization_operation, reader_operation,
                generated_types, rendered, source_hash, id_and_text_hash, skip_types,
            ),
            operation_text(
                config, project_config, normalization_operation, other_reader_operation,
                generated_types, rendered, source_hash, id_and_text_hash, skip_types,
            ),
            react_flight_client_dependencies(reader_operation.directives.relay_client_component),
            react_flight_client_dependencies(other_reader_operation.directives.relay_client_component),
        ),
{
    broadcast use group_same_but_for;

}

/// The module of an operation lists its data-driven dependencies in every case.
pub proof fn lemma_operation_lists_data_driven_dependencies(
    config: Config,
    project_config: ProjectConfig,
    normalization_operation: OperationDefinition,
    reader_operation: OperationDefinition,
    other_reader_operation: OperationDefinition,
    generated_types: ArtifactGeneratedTypes,
    rendered: Rendered,
    source_hash: Seq<char>,
    id_and_text_hash: Option<QueryID>,
    skip_types: bool,
)
    requires
        reader_operation.directives.data_driven_dependency is Some,
        other_reader_operation.directives.data_driven_dependency is Some,
        reader_operation.directives.indirect_data_driven_dependency == other_reader_operation.directives.indirect_data_driven_dependency,
        reader_operation.directives.react_flight_local_components == other_reader_operation.directives.react_flight_local_components,
        reader_operation.directives.relay_client_component == other_reader_operation.directives.relay_client_component,
        reader_operation.source_location_text == other_reader_operation.source_location_text,
    ensures
        same_but_for(
            operation_text(
                config, project_config, normalization_operation, reader_operation,
                generated_types, rendered, source_hash, id_and_text_hash, skip_types,
            ),
            operation_text(
                config, project_config, normalization_operation, other_reader_operation,
                generated_types, rendered, source_hash, id_and_text_hash, skip_types,
            ),
            data_driven_dependencies(reader_operation.directives.data_driven_dependency),
            data_driven_dependencies(other_reader_operation.directives.data_driven_dependency),
        ),
{
    broadcast use group_same_but_for;

}

/// The module of a fragment that is read lists its server components in every case.
pub proof fn lemma_read_only_fragment_lists_server_components(
    config: Config,
    project_config: ProjectConfig,
    reader_fragment: FragmentDefinition,
    other_reader_fragment: FragmentDefinition,
    generated_types: ArtifactGeneratedTypes,
    rendered: Rendered,
    source_hash: Seq<char>,
    skip_types: bool,
)
    requires
        same_dependencies(reader_fragment.directives, other_reader_fragment.directives),
        reader_fragment.directives.relay_client_component == other_reader_fragment.directives.relay_client_component,
        reader_fragment.source_location_text == other_reader_fragment.source_location_text,
    ensures
        same_but_for(
            read_only_fragment_text(
                config, project_config, reader_fragment, generated_types, rendered, source_hash,
                skip_types,
            ),
            read_only_fragment_text(
                config, project_config, other_reader_fragment, generated_types, rendered,
                source_hash, skip_types,
            ),
            react_flight_server_dependencies(reader_fragment.directives.react_flight_local_components),
            react_flight_server_dependencies(other_reader_fragment.directives.react_flight_local_components),
        ),
{
    broadcast use group_same_but_for;

}

/// The module of a fragment that is read lists its client components in every case.
pub proof fn lemma_read_only_fragment_lists_client_components(
    config: Config,
    project_config: ProjectConfig,
    reader_fragment: FragmentDefinition,
    other_reader_fragment: FragmentDefinition,
    generated_types: ArtifactGeneratedTypes,
    rendered: Rendered,
    source_hash: Seq<char>,
    skip_types: bool,
)
    requires
        same_dependencies(reader_fragment.directives, other_reader_fragment.directives),
        reader_fragment.directives.react_flight_local_components == other_reader_fragment.directives.react_flight_local_components,
        reader_fragment.source_location_text == other_reader_fragment.source_location_text,
    ensures
        same_but_for(
            read_only_fragment_text(
                config, project_config, reader_fragment, generated_types, rendered, source_hash,
                skip_types,
            ),
            read_only_fragment_text(
                config, project_config, other_reader_fragment, generated_types, rendered,
                source_hash, skip_types,
            ),
            react_flight_client_dependencies(reader_fragment.directives.relay_client_component),
            react_flight_client_dependencies(other_reader_fragment.directives.relay_client_component),
        ),
{
    broadcast use group_same_but_for;

}

/// The module of a fragment that is read lists its data-driven dependencies in every case.
pub proof fn lemma_read_only_fragment_lists_data_driven_dependencies(
    config: Config,
    project_config: ProjectConfig,
    reader_fragment: FragmentDefinition,
    other_reader_fragment: FragmentDefinition,
    generated_types: ArtifactGeneratedTypes,
    rendered: Rendered,
    source_hash: Seq<char>,
    skip_types: bool,
)
    requires
        reader_fragment.directives.data_driven_dependency is Some,
        other_reader_fragment.directives.data_driven_dependency is Some,
        reader_fragment.directives.indirect_data_driven_dependency == other_reader_fragment.directives.indirect_data_driven_dependency,
        reader_fragment.directives.react_flight_local_components == other_reader_fragment.directives.react_flight_local_components,
        reader_fragment.directives.relay_client_component == other_reader_fragment.directives.relay_client_component,
        reader_fragment.source_location_text == other_reader_fragment.source_location_text,
    ensures
        same_but_for(
            read_only_fragment_text(
                config, project_config, reader_fragment, generated_types, rendered, source_hash,
                skip_types,
            ),
            read_only_fragment_text(
                config, project_config, other_reader_fragment, generated_types, rendered,
                source_hash, skip_types,
            ),
            data_driven_dependencies(reader_fragment.directives.data_driven_dependency),
            data_driven_dependencies(other_reader_fragment.directives.data_driven_dependency),
        ),
{
    broadcast use group_same_but_for;

}

/// The module of an operation in ReScript lists its server components in every case.
pub proof fn lemma_operation_rescript_lists_server_components(
    project_config: ProjectConfig,
    normalization_operation: OperationDefinition,
    reader_operation: OperationDefinition,
    other_reader_operation: OperationDefinition,
    typegen_operation: OperationDefinition,
    rendered: Rendered,
    id_and_text_hash: Option<QueryID>,
)
    requires
        same_dependencies(reader_operation.directives, other_reader_operation.directives),
        reader_operation.directives.relay_client_component == other_reader_operation.directives.relay_client_component,
        reader_operation.source_location_text == other_reader_operation.source_location_text,
    ensures
        same_but_for(
            operation_rescript_text(
                project_config, normalization_operation, reader_operation, typegen_operation,
                rendered, id_and_text_hash,
            ),
            operation_rescript_text(
                project_config, normalization_operation, other_reader_operation,
                typegen_operation, rendered, id_and_text_hash,
            ),
            react_flight_server_dependencies(reader_operation.directives.react_flight_local_components),
            react_flight_server_dependencies(other_reader_operation.directives.react_flight_local_components),
        ),
{
    broadcast use group_same_but_for;

}

/// The module of an operation in ReScript lists its client components in every case.
pub proof fn lemma_operation_rescript_lists_client_components(
    project_config: ProjectConfig,
    normalization_operation: OperationDefinition,
    reader_operation: OperationDefinition,
    other_reader_operation: OperationDefinition,
    typegen_operation: OperationDefinition,
    rendered: Rendered,
    id_and_text_hash: Option<QueryID>,
)
    requires
        same_dependencies(reader_operation.directives, other_reader_operation.directives),
        reader_operation.directives.react_flight_local_components == other_reader_operation.directives.react_flight_local_components,
        reader_operation.source_location_text == other_reader_operation.source_location_text,
    ensures
        same_but_for(
            operation_rescript_text(
                project_config, normalization_operation, reader_operation, typegen_operation,
                rendered, id_and_text_hash,
            ),
            operation_rescript_text(
                project_config, normalization_operation, other_reader_operation,
                typegen_operation, rendered, id_and_text_hash,
            ),
            react_flight_client_dependencies(reader_operation.directives.relay_client_component),
            react_flight_client_dependencies(other_reader_operation.directives.relay_client_component),
        ),
{
    broadcast use group_same_but_for;

}

/// The module of an operation in ReScript lists its data-driven dependencies in every case.
pub proof fn lemma_operation_rescript_lists_data_driven_dependencies(
    project_config: ProjectConfig,
    normalization_operation: OperationDefinition,
    reader_operation: OperationDefinition,
    other_reader_operation: OperationDefinition,
    typegen_operation: OperationDefinition,
    rendered: Rendered,
    id_and_text_hash: Option<QueryID>,
)
    requires
        reader_operation.directives.data_driven_dependency is Some,
        other_reader_operation.directives.data_driven_dependency is Some,
        reader_operation.directives.indirect_data_driven_dependency == other_reader_operation.directives.indirect_data_driven_dependency,
        reader_operation.directives.react_flight_local_components == other_reader_operation.directives.react_flight_local_components,
        reader_operation.directives.relay_client_component == other_reader_operation.directives.relay_client_component,
        reader_operation.source_location_text == other_reader_operation.source_location_text,
    ensures
        same_but_for(
            operation_rescript_text(
                project_config, normalization_operation, reader_operation, typegen_operation,
                rendered, id_and_text_hash,
            ),
            operation_rescript_text(
                project_config, normalization_operation, other_reader_operation,
                typegen_operation, rendered, id_and_text_hash,
            ),
            data_driven_dependencies(reader_operation.directives.data_driven_dependency),
            data_driven_dependencies(other_reader_operation.directives.data_driven_dependency),
        ),
{
    broadcast use group_same_but_for;

}

/// The module of a fragment in ReScript lists its server components in every case.
pub proof fn lemma_fragment_rescript_lists_server_components(
    reader_fragment: FragmentDefinition,
    other_reader_fragment: FragmentDefinition,
    rendered: Rendered,
)
    requires
        same_dependencies(reader_fragment.directives, other_reader_fragment.directives),
        reader_fragment.directives.relay_client_component == other_reader_fragment.directives.relay_client_component,
        reader_fragment.source_location_text == other_reader_fragment.source_location_text,
    ensures
        same_but_for(
            fragment_rescript_text(reader_fragment, rendered),
            fragment_rescript_text(other_reader_fragment, rendered),
            react_flight_server_dependencies(reader_fragment.directives.react_flight_local_components),
            react_flight_server_dependencies(other_reader_fragment.directives.react_flight_local_components),
        ),
{
    broadcast use group_same_but_for;

}

/// The module of a fragment in ReScript lists its client components in every case.
pub proof fn lemma_fragment_rescript_lists_client_components(
    reader_fragment: FragmentDefinition,
    other_reader_fragment: FragmentDefinition,
    rendered: Rendered,
)
    requires
        same_dependencies(reader_fragment.directives, other_reader_fragment.directives),
        reader_fragment.directives.react_flight_local_components == other_reader_fragment.directives.react_flight_local_components,
        reader_fragment.source_location_text == other_reader_fragment.source_location_text,
    ensures
        same_but_for(
            fragment_rescript_text(reader_fragment, rendered),
            fragment_rescript_text(other_reader_fragment, rendered),
            react_flight_client_dependencies(reader_fragment.directives.relay_client_component),
            react_flight_client_dependencies(other_reader_fragment.directives.relay_client_component),
        ),
{
    broadcast use group_same_but_for;

}

/// The module of a fragment in ReScript lists its data-driven dependencies in every case.
pub proof fn lemma_fragment_rescript_lists_data_driven_dependencies(
    reader_fragment: FragmentDefinition,
    other_reader_fragment: FragmentDefinition,
    rendered: Rendered,
)
    requires
        reader_fragment.directives.data_driven_dependency is Some,
        other_reader_fragment.directives.data_driven_dependency is Some,
        reader_fragment.directives.indirect_data_driven_dependency == other_reader_fragment.directives.indirect_data_driven_dependency,
        reader_fragment.directives.react_flight_local_components == other_reader_fragment.directives.react_flight_local_components,
        reader_fragment.directives.relay_client_component == other_reader_fragment.directives.relay_client_component,
        reader_fragment.source_location_text == other_reader_fragment.source_location_text,
    ensures
        same_but_for(
            fragment_rescript_text(reader_fragment, rendered),
            fragment_rescript_text(other_reader_fragment, rendered),
            data_driven_dependencies(reader_fragment.directives.data_driven_dependency),
            data_driven_dependencies(other_reader_fragment.directives.data_driven_dependency),
        ),
{
    broadcast use group_same_but_for;

}

/// The module of an operation lists its indirect data-driven dependencies in every case.
pub proof fn lemma_operation_lists_indirect_dependencies(
    config: Config,
    project_config: ProjectConfig,
    normalization_operation: OperationDefinition,
    reader_operation: OperationDefinition,
    other_reader_operation: OperationDefinition,
    generated_types: ArtifactGeneratedTypes,
    rendered: Rendered,
    source_hash: Seq<char>,
    id_and_text_hash: Option<QueryID>,
    skip_types: bool,
)
    requires
        reader_operation.directives.indirect_data_driven_dependency is Some,
        other_reader_operation.directives.indirect_data_driven_dependency is Some,
        reader_operation.directives.data_driven_dependency == other_reader_operation.directives.data_driven_dependency,
        reader_operation.directives.react_flight_local_components == other_reader_operation.directives.react_flight_local_components,
        reader_operation.directives.relay_client_component == other_reader_operation.directives.relay_client_component,
    ensures
        same_but_for(
            operation_text(
                config, project_config, normalization_operation, reader_operation,
                generated_types, rendered, source_hash, id_and_text_hash, skip_types,
            ),
            operation_text(
                config, project_config, normalization_operation, other_reader_operation,
                generated_types, rendered, source_hash, id_and_text_hash, skip_types,
            ),
            indirect_data_driven_dependencies(reader_operation.directives.indirect_data_driven_dependency),
            indirect_data_driven_dependencies(other_reader_operation.directives.indirect_data_driven_dependency),
        ),
{
    broadcast use group_same_but_for;

}

/// The module of an operation in ReScript names the file that it was found in exactly where it is
/// known.
pub proof fn lemma_operation_rescript_shows_source_location(
    project_config: ProjectConfig,
    normalization_operation: OperationDefinition,
    reader_operation: OperationDefinition,
    other_reader_operation: OperationDefinition,
    typegen_operation: OperationDefinition,
    rendered: Rendered,
    id_and_text_hash: Option<QueryID>,
)
    requires
        reader_operation.directives == other_reader_operation.directives,
    ensures
        same_but_for(
            operation_rescript_text(
                project_config, normalization_operation, reader_operation, typegen_operation,
                rendered, id_and_text_hash,
            ),
            operation_rescript_text(
                project_config, normalization_operation, other_reader_operation,
                typegen_operation, rendered, id_and_text_hash,
            ),
            match reader_operation.source_location_text {
                Some(location) => location@ + "\n"@,
                None => Seq::empty(),
            },
            match other_reader_operation.source_location_text {
                Some(location) => location@ + "\n"@,
                None => Seq::empty(),
            },
        ),
{
    broadcast use group_same_but_for;

}

/// The module of a fragment in ReScript names the file that it was found in exactly where it is
/// known.
pub proof fn lemma_fragment_rescript_shows_source_location(
    reader_fragment: FragmentDefinition,
    other_reader_fragment: FragmentDefinition,
    rendered: Rendered,
)
    requires
        reader_fragment.directives == other_reader_fragment.directives,
    ensures
        same_but_for(
            fragment_rescript_text(reader_fragment, rendered),
            fragment_rescript_text(other_reader_fragment, rendered),
            match reader_fragment.source_location_text {
                Some(location) => location@ + "\n"@,
                None => Seq::empty(),
            },
            match other_reader_fragment.source_location_text {
                Some(location) => location@ + "\n"@,
                None => Seq::empty(),
            },
        ),
{
    broadcast use group_same_but_for;

}

} // verus!
