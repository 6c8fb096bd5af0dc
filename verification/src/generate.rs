//! From a parsed document to the source text of both tables.

use crate::document::{RegistryChildView, SpecDocument};
use crate::exclusion::{build_exclusion_set, excluded_names};
use crate::render::{
    all_identifiers, name_table, render_name_table, render_size_table, reports_first_rejected,
    size_table, GenerateError,
};
use crate::tables::{
    collect_name_entries, collect_size_entries, collect_types, document_types,
    lemma_same_selection, name_entries, size_entries, size_targets,
};
use vstd::prelude::*;

verus! {

/// The profile whose types get no branch: the tables are made for a library
/// that does not support it.
pub const UNSUPPORTED_PROFILE: &'static str = "vulkansc";

/// The source text of the two tables.
#[derive(Debug, Clone, PartialEq, Eq)]
pub struct GeneratedSources {
    pub type_sizes: String,
    pub type_names: String,
}

/// The names of the generated structures that get a branch for a document,
/// in document order.
pub open spec fn generated_targets(document: Seq<RegistryChildView>) -> Seq<Seq<char>> {
    size_targets(
        size_entries(document_types(document), excluded_names(document, UNSUPPORTED_PROFILE@)),
    )
}

/// The text of the size table for a document.
pub open spec fn type_sizes_text(document: Seq<RegistryChildView>) -> Seq<char> {
    size_table(
        size_entries(document_types(document), excluded_names(document, UNSUPPORTED_PROFILE@)),
    )
}

/// The text of the name table for a document.
pub open spec fn type_names_text(document: Seq<RegistryChildView>) -> Seq<char> {
    name_table(
        name_entries(document_types(document), excluded_names(document, UNSUPPORTED_PROFILE@)),
    )
}

/// Whether `result` is what generation owes for a document: both tables,
/// where every generated structure that gets a branch has a name that can
/// name an identifier, and else the first name that cannot.
pub open spec fn is_generated(
    document: Seq<RegistryChildView>,
    result: Result<GeneratedSources, GenerateError>,
) -> bool {
    match result {
        Ok(sources) => {
            &&& all_identifiers(generated_targets(document))
            &&& sources.type_sizes@ == type_sizes_text(document)
            &&& sources.type_names@ == type_names_text(document)
        },
        Err(error) => reports_first_rejected(generated_targets(document), error),
    }
}

/// Generates the source text of both tables for a document: a branch for
/// each declared type that gets one and does not belong to the unsupported
/// profile, in document order. Where the name of a generated structure
/// cannot name an identifier, nothing is generated and the first such name
/// is returned.
pub fn generate_source_code(document: &SpecDocument) -> (result: Result<
    GeneratedSources,
    GenerateError,
>)
    ensures
        is_generated(document@, result),
{
    let types = collect_types(document);
    let blacklist = build_exclusion_set(document, UNSUPPORTED_PROFILE);
    let size_list = collect_size_entries(&types, &blacklist);
    let name_list = collect_name_entries(&types, &blacklist);
    proof {
        lemma_same_selection(document_types(document@), blacklist@);
    }
    let type_sizes = match render_size_table(&size_list) {
        Ok(code) => code,
        Err(error) => {
            return Err(error);
        },
    };
    let type_names = match render_name_table(&name_list) {
        Ok(code) => code,
        Err(error) => {
            return Err(error);
        },
    };
    Ok(GeneratedSources { type_sizes, type_names })
}

/// Generation is deterministic: a document has one outcome. Two runs on the
/// same document both succeed with the same text in both tables, or both
/// fail with the same name.
pub proof fn lemma_one_outcome(
    document: Seq<RegistryChildView>,
    first: Result<GeneratedSources, GenerateError>,
    second: Result<GeneratedSources, GenerateError>,
)
    requires
        is_generated(document, first),
        is_generated(document, second),
    ensures
        match (first, second) {
            (Ok(a), Ok(b)) => a.type_sizes@ == b.type_sizes@ && a.type_names@ == b.type_names@,
            (
                Err(GenerateError::InvalidIdentifier(a)),
                Err(GenerateError::InvalidIdentifier(b)),
            ) => a@ == b@,
            _ => false,
        },
{
}

} // verus!
