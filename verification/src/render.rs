//! The source text of the two tables.

use crate::document::views;
use crate::entries::{NameEntry, NameEntryView, SizeEntry, SizeEntryView};
use crate::tables::{name_targets, size_targets};
use crate::tokens::{identifier, identifier_token, string_literal, string_literal_text};
use vstd::prelude::*;
use vstd::string::*;

verus! {

/// What stands before the branches of the size table.
pub const SIZE_TABLE_HEAD: &'static str =
    "pub trait VulkanSized {\n    fn get_type_size(self) -> usize;\n}\n\nimpl VulkanSized for ash::vk::StructureType {\n    fn get_type_size(self) -> usize {\n        use ash::vk::TaggedStructure;\n        match self {\n";

/// What stands behind the branches of the size table: the branch for a tag
/// that no other branch knows, and the closing brackets.
pub const SIZE_TABLE_TAIL: &'static str =
    "            _ => panic!(\"Error while trying to find type size of structure type numbered {}. No such structure type is known. You may have to update ash-structure-utils.\", self.as_raw()),\n        }\n    }\n}\n";

/// What stands before the branches of the name table.
pub const NAME_TABLE_HEAD: &'static str =
    "pub trait VulkanNamed {\n    fn get_type_name(self) -> &'static str;\n}\n\nimpl VulkanNamed for ash::vk::StructureType {\n    fn get_type_name(self) -> &'static str {\n        use ash::vk::TaggedStructure;\n        match self {\n";

/// What stands behind the branches of the name table: the branch for a tag
/// that no other branch knows, and the closing brackets.
pub const NAME_TABLE_TAIL: &'static str =
    "            _ => panic!(\"Error while trying to find name of structure type numbered {}. No such structure type is known. You may have to update ash-structure-utils.\", self.as_raw()),\n        }\n    }\n}\n";

/// The pattern of a branch: the tag of the generated structure `target`.
pub open spec fn tag_pattern(target: Seq<char>) -> Seq<char> {
    "            ash::vk::"@ + target + "::STRUCTURE_TYPE => "@
}

/// The text of the branch that gives the size of the generated structure
/// `target`.
pub open spec fn size_branch_text(target: Seq<char>) -> Seq<char> {
    tag_pattern(target) + "std::mem::size_of::<ash::vk::"@ + target + ">(),\n"@
}

/// The text of the branch that gives `literal` for the tag of the generated
/// structure `target`.
pub open spec fn name_branch_text(target: Seq<char>, literal: Seq<char>) -> Seq<char> {
    tag_pattern(target) + literal + ",\n"@
}

/// The text of a branch of the size table.
pub open spec fn size_branch(entry: SizeEntryView) -> Seq<char> {
    size_branch_text(entry.target)
}

/// The text of a branch of the name table: it gives the name of the tag's
/// enumerant as a string literal.
pub open spec fn name_branch(entry: NameEntryView) -> Seq<char> {
    name_branch_text(entry.target, string_literal(entry.tag))
}

/// The text of the size table with the branches `entries`.
pub open spec fn size_table(entries: Seq<SizeEntryView>) -> Seq<char> {
    SIZE_TABLE_HEAD@ + entries.flat_map(|entry: SizeEntryView| size_branch(entry))
        + SIZE_TABLE_TAIL@
}

/// The text of the name table with the branches `entries`.
pub open spec fn name_table(entries: Seq<NameEntryView>) -> Seq<char> {
    NAME_TABLE_HEAD@ + entries.flat_map(|entry: NameEntryView| name_branch(entry))
        + NAME_TABLE_TAIL@
}

/// Writes the pattern of the branch for the generated structure `target`.
fn write_tag_pattern(target: &str) -> (text: String)
    ensures
        text@ == tag_pattern(target@),
{
    let mut text = String::from_str("            ash::vk::");
    text.append(target);
    text.append("::STRUCTURE_TYPE => ");
    text
}

/// Writes the branch that gives the size of the generated structure
/// `target`.
pub fn write_size_branch(target: &str) -> (text: String)
    ensures
        text@ == size_branch_text(target@),
{
    let mut text = write_tag_pattern(target);
    text.append("std::mem::size_of::<ash::vk::");
    text.append(target);
    text.append(">(),\n");
    text
}

/// Writes the branch that gives `literal` for the tag of the generated
/// structure `target`.
pub fn write_name_branch(target: &str, literal: &str) -> (text: String)
    ensures
        text@ == name_branch_text(target@, literal@),
{
    let mut text = write_tag_pattern(target);
    text.append(literal);
    text.append(",\n");
    text
}

/// The text of one branch of the size table, where the entry's target can
/// name an identifier; nothing where it cannot.
pub fn render_size_branch(entry: &SizeEntry) -> (text: Option<String>)
    ensures
        match text {
            Some(branch) => identifier(entry@.target) && branch@ == size_branch(entry@),
            None => !identifier(entry@.target),
        },
{
    match identifier_token(entry.target.as_str()) {
        Some(ident) => Some(write_size_branch(ident.as_str())),
        None => None,
    }
}

/// The text of one branch of the name table, where the entry's target can
/// name an identifier; nothing where it cannot.
pub fn render_name_branch(entry: &NameEntry) -> (text: Option<String>)
    ensures
        match text {
            Some(branch) => identifier(entry@.target) && branch@ == name_branch(entry@),
            None => !identifier(entry@.target),
        },
{
    match identifier_token(entry.target.as_str()) {
        Some(ident) => {
            let literal = string_literal_text(entry.tag.as_str());
            Some(write_name_branch(ident.as_str(), literal.as_str()))
        },
        None => None,
    }
}

/// Why no source text was produced.
#[derive(Debug, Clone, PartialEq, Eq)]
pub enum GenerateError {
    /// A structure that gets a branch has a name that cannot name an
    /// identifier. The name is that of the first such structure.
    InvalidIdentifier(String),
}

/// Whether every name can name an identifier.
pub open spec fn all_identifiers(names: Seq<Seq<char>>) -> bool {
    forall|i: int| 0 <= i < names.len() ==> identifier(#[trigger] names[i])
}

/// Whether the name at `i` is the first that cannot name an identifier.
pub open spec fn is_first_rejected(names: Seq<Seq<char>>, i: int) -> bool {
    &&& 0 <= i < names.len()
    &&& !identifier(names[i])
    &&& forall|j: int| 0 <= j < i ==> identifier(#[trigger] names[j])
}

/// Whether `error` carries the first of `names` that cannot name an
/// identifier.
pub open spec fn reports_first_rejected(names: Seq<Seq<char>>, error: GenerateError) -> bool {
    match error {
        GenerateError::InvalidIdentifier(name) => exists|i: int|
            is_first_rejected(names, i) && name@ == names[i],
    }
}

/// The text of the size table with the branches `entries`, in their order,
/// where every target can name an identifier; else the first target that
/// cannot.
pub fn render_size_table(entries: &Vec<SizeEntry>) -> (text: Result<String, GenerateError>)
    ensures
        match text {
            Ok(code) => all_identifiers(size_targets(views(entries@))) && code@ == size_table(
                views(entries@),
            ),
            Err(error) => reports_first_rejected(size_targets(views(entries@)), error),
        },
{
    let ghost list = views(entries@);
    let ghost names = size_targets(list);
    let mut code = String::from_str(SIZE_TABLE_HEAD);
    let mut i: usize = 0;
    while i < entries.len()
        invariant
            i <= entries.len(),
            list == views(entries@),
            names == size_targets(list),
            forall|j: int| 0 <= j < i ==> identifier(#[trigger] names[j]),
            code@ == SIZE_TABLE_HEAD@ + list.take(i as int).flat_map(
                |entry: SizeEntryView| size_branch(entry),
            ),
        decreases entries.len() - i,
    {
        proof {
            list.lemma_flat_map_take_append(|entry: SizeEntryView| size_branch(entry), i as int);
        }
        match render_size_branch(&entries[i]) {
            Some(branch) => {
                code.append(branch.as_str());
            },
            None => {
                assert(is_first_rejected(names, i as int));
                return Err(GenerateError::InvalidIdentifier(entries[i].target.clone()));
            },
        }
        i += 1;
    }
    assert(list.take(entries.len() as int) =~= list);
    code.append(SIZE_TABLE_TAIL);
    Ok(code)
}

/// The text of the name table with the branches `entries`, in their order,
/// where every target can name an identifier; else the first target that
/// cannot.
pub fn render_name_table(entries: &Vec<NameEntry>) -> (text: Result<String, GenerateError>)
    ensures
        match text {
            Ok(code) => all_identifiers(name_targets(views(entries@))) && code@ == name_table(
                views(entries@),
            ),
            Err(error) => reports_first_rejected(name_targets(views(entries@)), error),
        },
{
    let ghost list = views(entries@);
    let ghost names = name_targets(list);
    let mut code = String::from_str(NAME_TABLE_HEAD);
    let mut i: usize = 0;
    while i < entries.len()
        invariant
            i <= entries.len(),
            list == views(entries@),
            names == name_targets(list),
            forall|j: int| 0 <= j < i ==> identifier(#[trigger] names[j]),
            code@ == NAME_TABLE_HEAD@ + list.take(i as int).flat_map(
                |entry: NameEntryView| name_branch(entry),
            ),
        decreases entries.len() - i,
    {
        proof {
            list.lemma_flat_map_take_append(|entry: NameEntryView| name_branch(entry), i as int);
        }
        match render_name_branch(&entries[i]) {
            Some(branch) => {
                code.append(branch.as_str());
            },
            None => {
                assert(is_first_rejected(names, i as int));
                return Err(GenerateError::InvalidIdentifier(entries[i].target.clone()));
            },
        }
        i += 1;
    }
    assert(list.take(entries.len() as int) =~= list);
    code.append(NAME_TABLE_TAIL);
    Ok(code)
}

} // verus!
