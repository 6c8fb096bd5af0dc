//! The two tables: which types of a document get a branch, in which order,
//! and the source text of each table.

use crate::document::{
    views, RegistryChild, RegistryChildView, SpecDocument, TypeDef, TypeDefView, TypesChild,
    TypesChildView,
};
use crate::entries::{
    generate_struct_name, generate_struct_type_size, name_entry, selected_tag, size_entry,
    NameEntry, NameEntryView, SizeEntry, SizeEntryView,
};
use crate::names::generated_name;
use crate::exclusion::ExclusionSet;
use vstd::prelude::*;

verus! {

/// The type that an entry of a block of declarations declares, if any.
pub open spec fn declared_type(child: TypesChildView) -> Option<TypeDefView> {
    match child {
        TypesChildView::Type(t) => Some(t),
        TypesChildView::Comment(_) => None,
    }
}

/// The types that a node declares, in its order.
pub open spec fn node_types(node: RegistryChildView) -> Seq<TypeDefView> {
    match node {
        RegistryChildView::Types(children) => children.filter_map(
            |child: TypesChildView| declared_type(child),
        ),
        _ => Seq::empty(),
    }
}

/// All types that a document declares, in document order.
pub open spec fn document_types(document: Seq<RegistryChildView>) -> Seq<TypeDefView> {
    document.flat_map(|node: RegistryChildView| node_types(node))
}

/// The branches of the size table for `types`: one for each type that gets a
/// branch, in the order of `types`.
pub open spec fn size_entries(types: Seq<TypeDefView>, excluded: Set<Seq<char>>) -> Seq<
    SizeEntryView,
> {
    types.filter_map(|t: TypeDefView| size_entry(t, excluded))
}

/// The branches of the name table for `types`: one for each type that gets a
/// branch, in the order of `types`.
pub open spec fn name_entries(types: Seq<TypeDefView>, excluded: Set<Seq<char>>) -> Seq<
    NameEntryView,
> {
    types.filter_map(|t: TypeDefView| name_entry(t, excluded))
}

/// The names of the generated structures of the branches of a size table.
pub open spec fn size_targets(entries: Seq<SizeEntryView>) -> Seq<Seq<char>> {
    entries.map_values(|entry: SizeEntryView| entry.target)
}

/// The names of the generated structures of the branches of a name table.
pub open spec fn name_targets(entries: Seq<NameEntryView>) -> Seq<Seq<char>> {
    entries.map_values(|entry: NameEntryView| entry.target)
}

/// Appends the types that `children` declare to `types`.
fn push_declared_types<'a>(types: &mut Vec<&'a TypeDef>, children: &'a Vec<TypesChild>)
    ensures
        views(final(types)@) == views(old(types)@) + node_types(
            RegistryChildView::Types(views(children@)),
        ),
{
    let ghost before = views(types@);
    let ghost list = views(children@);
    let mut i: usize = 0;
    while i < children.len()
        invariant
            i <= children.len(),
            list == views(children@),
            views(types@) == before + list.take(i as int).filter_map(
                |child: TypesChildView| declared_type(child),
            ),
        decreases children.len() - i,
    {
        proof {
            list.lemma_filter_map_take_succ(|child: TypesChildView| declared_type(child), i as int);
        }
        let ghost earlier = views(types@);
        match &children[i] {
            TypesChild::Type(t) => {
                types.push(t);
                assert(views(types@) =~= earlier.push(t@));
            },
            TypesChild::Comment(_) => {},
        }
        i += 1;
    }
    assert(list.take(children.len() as int) =~= list);
}

/// Collects the types that a document declares, in document order.
pub fn collect_types<'a>(document: &'a SpecDocument) -> (types: Vec<&'a TypeDef>)
    ensures
        views(types@) == document_types(document@),
{
    let ghost list = document@;
    let mut types: Vec<&'a TypeDef> = Vec::new();
    let mut i: usize = 0;
    while i < document.children.len()
        invariant
            i <= document.children.len(),
            list == document@,
            views(types@) == document_types(list.take(i as int)),
        decreases document.children.len() - i,
    {
        proof {
            list.lemma_flat_map_take_append(|node: RegistryChildView| node_types(node), i as int);
        }
        match &document.children[i] {
            RegistryChild::Types(children) => {
                push_declared_types(&mut types, children);
            },
            _ => {},
        }
        i += 1;
    }
    assert(list.take(document.children.len() as int) =~= list);
    types
}

/// Collects the branches of the size table for `types`, in their order.
pub fn collect_size_entries(types: &Vec<&TypeDef>, blacklist: &ExclusionSet) -> (entries: Vec<
    SizeEntry,
>)
    ensures
        views(entries@) == size_entries(views(types@), blacklist@),
{
    let ghost list = views(types@);
    let ghost excluded = blacklist@;
    let mut entries: Vec<SizeEntry> = Vec::new();
    let mut i: usize = 0;
    while i < types.len()
        invariant
            i <= types.len(),
            list == views(types@),
            excluded == blacklist@,
            views(entries@) == size_entries(list.take(i as int), excluded),
        decreases types.len() - i,
    {
        proof {
            list.lemma_filter_map_take_succ(|t: TypeDefView| size_entry(t, excluded), i as int);
        }
        match generate_struct_type_size(types[i], blacklist) {
            Some(entry) => {
                entries.push(entry);
            },
            None => {},
        }
        i += 1;
    }
    assert(list.take(types.len() as int) =~= list);
    entries
}

/// Collects the branches of the name table for `types`, in their order.
pub fn collect_name_entries(types: &Vec<&TypeDef>, blacklist: &ExclusionSet) -> (entries: Vec<
    NameEntry,
>)
    ensures
        views(entries@) == name_entries(views(types@), blacklist@),
{
    let ghost list = views(types@);
    let ghost excluded = blacklist@;
    let mut entries: Vec<NameEntry> = Vec::new();
    let mut i: usize = 0;
    while i < types.len()
        invariant
            i <= types.len(),
            list == views(types@),
            excluded == blacklist@,
            views(entries@) == name_entries(list.take(i as int), excluded),
        decreases types.len() - i,
    {
        proof {
            list.lemma_filter_map_take_succ(|t: TypeDefView| name_entry(t, excluded), i as int);
        }
        match generate_struct_name(types[i], blacklist) {
            Some(entry) => {
                entries.push(entry);
            },
            None => {},
        }
        i += 1;
    }
    assert(list.take(types.len() as int) =~= list);
    entries
}

/// The types among `types` that get a branch, in the order of `types`.
pub open spec fn selected_types(types: Seq<TypeDefView>, excluded: Set<Seq<char>>) -> Seq<
    TypeDefView,
> {
    types.filter(|t: TypeDefView| selected_tag(t, excluded) is Some)
}

/// A type without a name, a type without a member list and a type whose name
/// is in the exclusion set get no branch, in neither table.
pub proof fn lemma_unselected_in_both(t: TypeDefView, excluded: Set<Seq<char>>)
    requires
        t.name is None || t.members is None || excluded.contains(t.name->0),
    ensures
        size_entry(t, excluded) is None,
        name_entry(t, excluded) is None,
{
}

/// A type gets a branch in the size table exactly when it gets one in the
/// name table, and the two branches are for the same generated structure:
/// the one named by the type's name without its namespace prefix.
pub proof fn lemma_same_target(t: TypeDefView, excluded: Set<Seq<char>>)
    ensures
        size_entry(t, excluded) is Some <==> name_entry(t, excluded) is Some,
        size_entry(t, excluded) is Some ==> {
            &&& t.name is Some
            &&& size_entry(t, excluded)->0.target == generated_name(t.name->0)
            &&& name_entry(t, excluded)->0.target == generated_name(t.name->0)
            &&& Some(name_entry(t, excluded)->0.tag) == selected_tag(t, excluded)
        },
{
}

/// Both tables hold one branch for each type that gets a branch, in the
/// order of the types: the two lists of branches are as long as the list of
/// those types, and their branches at each place are those of the type at
/// that place.
pub proof fn lemma_same_selection(types: Seq<TypeDefView>, excluded: Set<Seq<char>>)
    ensures
        size_entries(types, excluded).len() == selected_types(types, excluded).len(),
        name_entries(types, excluded).len() == selected_types(types, excluded).len(),
        forall|i: int|
            0 <= i < selected_types(types, excluded).len() ==> {
                &&& size_entry(#[trigger] selected_types(types, excluded)[i], excluded) == Some(
                    size_entries(types, excluded)[i],
                )
                &&& name_entry(selected_types(types, excluded)[i], excluded) == Some(
                    name_entries(types, excluded)[i],
                )
            },
        size_targets(size_entries(types, excluded)) == name_targets(
            name_entries(types, excluded),
        ),
    decreases types.len(),
{
    reveal(Seq::filter);
    if types.len() > 0 {
        lemma_same_selection(types.drop_last(), excluded);
    }
    assert(size_targets(size_entries(types, excluded)) =~= name_targets(
        name_entries(types, excluded),
    )) by {
        assert forall|i: int| 0 <= i < size_entries(types, excluded).len() implies size_entries(
            types,
            excluded,
        )[i].target == name_entries(types, excluded)[i].target by {
            lemma_same_target(selected_types(types, excluded)[i], excluded);
        }
    }
}

} // verus!
