//! Selection of the structures that get a branch in the generated tables.

use crate::document::{
    views, MemberDecl, MemberDeclView, MemberDefinition, MemberDefinitionView, TypeDef, TypeDefView,
};
use crate::exclusion::ExclusionSet;
use crate::names::{generated_name, starts_with, vkspec_name_to_ash_struct_name};
use vstd::prelude::*;
use vstd::string::*;

verus! {

/// Whether a member declares the structure-tag field: a definition whose
/// declaration begins with the name of the tag type.
pub open spec fn is_tag_member(member: MemberDeclView) -> bool {
    match member {
        MemberDeclView::Definition(def) => "VkStructureType"@.is_prefix_of(def.code),
        MemberDeclView::Comment(_) => false,
    }
}

/// Whether the member at `i` is the first that declares the tag field.
pub open spec fn is_first_tag_member(members: Seq<MemberDeclView>, i: int) -> bool {
    &&& 0 <= i < members.len()
    &&& is_tag_member(members[i])
    &&& forall|j: int| 0 <= j < i ==> !is_tag_member(#[trigger] members[j])
}

/// The first member that declares the tag field, if there is one.
pub open spec fn tag_member(members: Seq<MemberDeclView>) -> Option<MemberDefinitionView> {
    if exists|i: int| is_first_tag_member(members, i) {
        let i = choose|i: int| is_first_tag_member(members, i);
        Some(members[i]->Definition_0)
    } else {
        None
    }
}

/// The enumerant that tags a structure which gets a branch; `None` for a type
/// that gets none. A type gets a branch when it has a name that is not in
/// `excluded`, has a member list, and the first member of the list that
/// declares the tag field is fixed to an enumerant.
pub open spec fn selected_tag(t: TypeDefView, excluded: Set<Seq<char>>) -> Option<Seq<char>> {
    if t.name is None || t.members is None {
        None
    } else if excluded.contains(t.name->0) {
        None
    } else {
        match tag_member(t.members->0) {
            Some(def) => def.values,
            None => None,
        }
    }
}

/// A branch of the size table: the generated structure whose tag selects the
/// branch and whose size the branch gives.
#[derive(Debug, Clone, PartialEq, Eq)]
pub struct SizeEntry {
    pub target: String,
}

/// What a `SizeEntry` holds, as characters and sequences.
pub struct SizeEntryView {
    pub target: Seq<char>,
}

impl View for SizeEntry {
    type V = SizeEntryView;

    open spec fn view(&self) -> SizeEntryView {
        SizeEntryView { target: self.target@ }
    }
}

/// A branch of the name table: the generated structure whose tag selects the
/// branch, and the name of the tag's enumerant, which the branch gives.
#[derive(Debug, Clone, PartialEq, Eq)]
pub struct NameEntry {
    pub target: String,
    pub tag: String,
}

/// What a `NameEntry` holds, as characters and sequences.
pub struct NameEntryView {
    pub target: Seq<char>,
    pub tag: Seq<char>,
}

impl View for NameEntry {
    type V = NameEntryView;

    open spec fn view(&self) -> NameEntryView {
        NameEntryView { target: self.target@, tag: self.tag@ }
    }
}

/// The branch of the size table for `t`, if it gets one.
pub open spec fn size_entry(t: TypeDefView, excluded: Set<Seq<char>>) -> Option<SizeEntryView> {
    match selected_tag(t, excluded) {
        Some(_) => Some(SizeEntryView { target: generated_name(t.name->0) }),
        None => None,
    }
}

/// The branch of the name table for `t`, if it gets one.
pub open spec fn name_entry(t: TypeDefView, excluded: Set<Seq<char>>) -> Option<NameEntryView> {
    match selected_tag(t, excluded) {
        Some(tag) => Some(NameEntryView { target: generated_name(t.name->0), tag }),
        None => None,
    }
}

/// There is at most one first tag member.
proof fn lemma_first_tag_member_unique(members: Seq<MemberDeclView>, i: int, j: int)
    requires
        is_first_tag_member(members, i),
        is_first_tag_member(members, j),
    ensures
        i == j,
{
}

/// Finds the first member that declares the tag field.
fn find_tag_member(members: &Vec<MemberDecl>) -> (found: Option<&MemberDefinition>)
    ensures
        match found {
            Some(def) => tag_member(views(members@)) == Some(def@),
            None => tag_member(views(members@)) is None,
        },
{
    let ghost list = views(members@);
    let mut i: usize = 0;
    while i < members.len()
        invariant
            i <= members.len(),
            list == views(members@),
            forall|j: int| 0 <= j < i ==> !is_tag_member(#[trigger] list[j]),
        decreases members.len() - i,
    {
        match &members[i] {
            MemberDecl::Definition(def) => {
                if starts_with(def.code.as_str(), "VkStructureType") {
                    proof {
                        assert(is_first_tag_member(list, i as int));
                        let k = choose|k: int| is_first_tag_member(list, k);
                        lemma_first_tag_member_unique(list, i as int, k);
                    }
                    return Some(def);
                }
            },
            MemberDecl::Comment(_) => {},
        }
        i += 1;
    }
    assert forall|k: int| !is_first_tag_member(list, k) by {}
    None
}

/// Finds the enumerant that tags `t`, where `t` gets a branch.
fn find_selected_tag<'a>(t: &'a TypeDef, blacklist: &ExclusionSet) -> (tag: Option<&'a String>)
    ensures
        match tag {
            Some(value) => t.name is Some && selected_tag(t@, blacklist@) == Some(value@),
            None => selected_tag(t@, blacklist@) is None,
        },
{
    let name = match &t.name {
        Some(name) => name,
        None => {
            return None;
        },
    };
    if blacklist.contains(name.as_str()) {
        return None;
    }
    let members = match &t.members {
        Some(members) => members,
        None => {
            return None;
        },
    };
    match find_tag_member(members) {
        Some(def) => match &def.values {
            Some(value) => Some(value),
            None => None,
        },
        None => None,
    }
}

/// The branch of the size table for `t`: the generated structure's name,
/// where `t` gets a branch, and nothing where it gets none.
pub fn generate_struct_type_size(t: &TypeDef, blacklist: &ExclusionSet) -> (entry: Option<
    SizeEntry,
>)
    ensures
        match entry {
            Some(e) => size_entry(t@, blacklist@) == Some(e@),
            None => size_entry(t@, blacklist@) is None,
        },
{
    match find_selected_tag(t, blacklist) {
        Some(_) => {
            let name = match &t.name {
                Some(name) => name,
                None => {
                    return None;
                },
            };
            let target = vkspec_name_to_ash_struct_name(name.as_str());
            Some(SizeEntry { target: String::from_str(target) })
        },
        None => None,
    }
}

/// The branch of the name table for `t`: the generated structure's name and
/// the name of its tag's enumerant, where `t` gets a branch, and nothing
/// where it gets none.
pub fn generate_struct_name(t: &TypeDef, blacklist: &ExclusionSet) -> (entry: Option<NameEntry>)
    ensures
        match entry {
            Some(e) => name_entry(t@, blacklist@) == Some(e@),
            None => name_entry(t@, blacklist@) is None,
        },
{
    match find_selected_tag(t, blacklist) {
        Some(tag) => {
            let name = match &t.name {
                Some(name) => name,
                None => {
                    return None;
                },
            };
            let target = vkspec_name_to_ash_struct_name(name.as_str());
            Some(NameEntry { target: String::from_str(target), tag: tag.clone() })
        },
        None => None,
    }
}

} // verus!
