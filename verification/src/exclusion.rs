//! The set of type names that belong to a profile and are therefore left out
//! of the generated tables.

use crate::document::{
    text_of, views, Extension, ExtensionChild, ExtensionChildView, ExtensionView, InterfaceItem,
    InterfaceItemView, RegistryChild, RegistryChildView, SpecDocument,
};
use vstd::hash_set::StringHashSet;
use vstd::prelude::*;
use vstd::string::*;

verus! {

/// The names that some element of `list` contributes through `part`.
pub open spec fn union_over<T>(list: Seq<T>, part: spec_fn(T) -> Set<Seq<char>>) -> Set<
    Seq<char>,
> {
    Set::new(
        |name: Seq<char>|
            exists|i: int| 0 <= i < list.len() && #[trigger] part(list[i]).contains(name),
    )
}

/// One element more adds that element's names.
proof fn lemma_union_over_step<T>(
    list: Seq<T>,
    part: spec_fn(T) -> Set<Seq<char>>,
    i: int,
)
    requires
        0 <= i < list.len(),
    ensures
        union_over(list.take(i + 1), part) == union_over(list.take(i), part).union(
            part(list[i]),
        ),
{
    let longer = list.take(i + 1);
    let shorter = list.take(i);
    assert forall|name: Seq<char>|
        union_over(longer, part).contains(name) <==> union_over(shorter, part).union(
            part(list[i]),
        ).contains(name) by {
        if part(list[i]).contains(name) {
            assert(part(longer[i]).contains(name));
        }
    }
}

/// The type name that an item asks for, if it asks for a type.
pub open spec fn item_names(item: InterfaceItemView) -> Set<Seq<char>> {
    match item {
        InterfaceItemView::Type { name } => set![name],
        InterfaceItemView::Other => Set::empty(),
    }
}

/// The type names in a list of items.
pub open spec fn names_in_items(items: Seq<InterfaceItemView>) -> Set<Seq<char>> {
    union_over(items, |item: InterfaceItemView| item_names(item))
}

/// The type names that a block requires. With a `scope`, only a block whose
/// own `api` is that profile counts; a block that names no profile does not.
pub open spec fn block_names(block: ExtensionChildView, scope: Option<Seq<char>>) -> Set<
    Seq<char>,
> {
    match block {
        ExtensionChildView::Require { api, items } => if scope is None || api == scope {
            names_in_items(items)
        } else {
            Set::empty()
        },
        ExtensionChildView::Other => Set::empty(),
    }
}

/// The type names that the blocks of one feature or extension require.
pub open spec fn names_in_blocks(blocks: Seq<ExtensionChildView>, scope: Option<Seq<char>>) -> Set<
    Seq<char>,
> {
    union_over(blocks, |block: ExtensionChildView| block_names(block, scope))
}

/// The type names that a node contributes as a feature declared for
/// `profile`: everything that its blocks require.
pub open spec fn feature_names(node: RegistryChildView, profile: Seq<char>) -> Set<Seq<char>> {
    match node {
        RegistryChildView::Feature(feature) => if feature.api == profile {
            names_in_blocks(feature.children, None)
        } else {
            Set::empty()
        },
        _ => Set::empty(),
    }
}

/// The type names that an extension requires in blocks of its own that name
/// `profile`.
pub open spec fn extension_scoped_names(extension: ExtensionView, profile: Seq<char>) -> Set<
    Seq<char>,
> {
    names_in_blocks(extension.children, Some(profile))
}

/// Everything that an extension requires, where `profile` is what supports
/// the extension; nothing where it is not.
pub open spec fn extension_supported_names(extension: ExtensionView, profile: Seq<char>) -> Set<
    Seq<char>,
> {
    if extension.supported == Some(profile) {
        names_in_blocks(extension.children, None)
    } else {
        Set::empty()
    }
}

/// The type names that a node contributes through the blocks of its
/// extensions that name `profile`.
pub open spec fn scoped_names(node: RegistryChildView, profile: Seq<char>) -> Set<Seq<char>> {
    match node {
        RegistryChildView::Extensions(extensions) => union_over(
            extensions,
            |extension: ExtensionView| extension_scoped_names(extension, profile),
        ),
        _ => Set::empty(),
    }
}

/// The type names that a node contributes through its extensions that
/// `profile` supports.
pub open spec fn supported_names(node: RegistryChildView, profile: Seq<char>) -> Set<Seq<char>> {
    match node {
        RegistryChildView::Extensions(extensions) => union_over(
            extensions,
            |extension: ExtensionView| extension_supported_names(extension, profile),
        ),
        _ => Set::empty(),
    }
}

/// First source: the requirements of the features declared for `profile`.
pub open spec fn feature_requirements(document: Seq<RegistryChildView>, profile: Seq<char>) -> Set<
    Seq<char>,
> {
    union_over(document, |node: RegistryChildView| feature_names(node, profile))
}

/// Second source: the requirements that extensions make for `profile` alone.
pub open spec fn scoped_requirements(document: Seq<RegistryChildView>, profile: Seq<char>) -> Set<
    Seq<char>,
> {
    union_over(document, |node: RegistryChildView| scoped_names(node, profile))
}

/// Third source: all requirements of the extensions that `profile` supports.
pub open spec fn supported_requirements(
    document: Seq<RegistryChildView>,
    profile: Seq<char>,
) -> Set<Seq<char>> {
    union_over(document, |node: RegistryChildView| supported_names(node, profile))
}

/// The names of the types that belong to `profile`: the union of the three
/// sources.
pub open spec fn excluded_names(document: Seq<RegistryChildView>, profile: Seq<char>) -> Set<
    Seq<char>,
> {
    feature_requirements(document, profile).union(scoped_requirements(document, profile)).union(
        supported_requirements(document, profile),
    )
}

/// A set of type names.
pub struct ExclusionSet {
    names: StringHashSet,
}

impl View for ExclusionSet {
    type V = Set<Seq<char>>;

    closed spec fn view(&self) -> Set<Seq<char>> {
        self.names@
    }
}

impl ExclusionSet {
    /// The empty set.
    pub fn new() -> (set: Self)
        ensures
            set@ == Set::<Seq<char>>::empty(),
    {
        ExclusionSet { names: StringHashSet::new() }
    }

    /// Adds `name`; a name that is already there is not added again.
    pub fn insert(&mut self, name: String)
        ensures
            final(self)@ == old(self)@.insert(name@),
    {
        self.names.insert(name);
    }

    /// Tells whether `name` is in the set.
    pub fn contains(&self, name: &str) -> (found: bool)
        ensures
            found == self@.contains(name@),
    {
        self.names.contains(name)
    }

    /// The number of names in the set.
    pub fn len(&self) -> (count: usize)
        ensures
            count == self@.len(),
    {
        self.names.len()
    }
}

/// Adds the type names of `items` to `set`.
fn add_items(set: &mut ExclusionSet, items: &Vec<InterfaceItem>)
    ensures
        final(set)@ == old(set)@.union(names_in_items(views(items@))),
{
    let ghost before = set@;
    let ghost list = views(items@);
    let mut i: usize = 0;
    while i < items.len()
        invariant
            i <= items.len(),
            list == views(items@),
            set@ == before.union(names_in_items(list.take(i as int))),
        decreases items.len() - i,
    {
        proof {
            lemma_union_over_step(list, |item: InterfaceItemView| item_names(item), i as int);
        }
        match &items[i] {
            InterfaceItem::Type { name } => {
                set.insert(name.clone());
            },
            InterfaceItem::Other => {},
        }
        i += 1;
    }
    assert(list.take(items.len() as int) =~= list);
}

/// The characters of a profile name, where one is given.
pub open spec fn scope_of(scope: Option<&String>) -> Option<Seq<char>> {
    match scope {
        Some(profile) => Some(profile@),
        None => None,
    }
}

/// Tells whether a block that names `api` counts under `scope`.
fn in_scope(api: &Option<String>, scope: Option<&String>) -> (counts: bool)
    ensures
        counts == (scope is None || text_of(*api) == scope_of(scope)),
{
    match scope {
        None => true,
        Some(profile) => match api {
            Some(named) => *named == *profile,
            None => false,
        },
    }
}

/// Adds to `set` the type names that `blocks` require under `scope`.
fn add_blocks(set: &mut ExclusionSet, blocks: &Vec<ExtensionChild>, scope: Option<&String>)
    ensures
        final(set)@ == old(set)@.union(names_in_blocks(views(blocks@), scope_of(scope))),
{
    let ghost before = set@;
    let ghost list = views(blocks@);
    let ghost wanted = scope_of(scope);
    let mut i: usize = 0;
    while i < blocks.len()
        invariant
            i <= blocks.len(),
            list == views(blocks@),
            wanted == scope_of(scope),
            set@ == before.union(names_in_blocks(list.take(i as int), wanted)),
        decreases blocks.len() - i,
    {
        proof {
            lemma_union_over_step(
                list,
                |block: ExtensionChildView| block_names(block, wanted),
                i as int,
            );
        }
        match &blocks[i] {
            ExtensionChild::Require { api, items } => {
                if in_scope(api, scope) {
                    add_items(set, items);
                }
            },
            ExtensionChild::Other => {},
        }
        i += 1;
    }
    assert(list.take(blocks.len() as int) =~= list);
}

/// Adds to `set` what the extensions require in blocks that name `profile`.
fn add_scoped_extensions(set: &mut ExclusionSet, extensions: &Vec<Extension>, profile: &String)
    ensures
        final(set)@ == old(set)@.union(
            scoped_names(RegistryChildView::Extensions(views(extensions@)), profile@),
        ),
{
    let ghost before = set@;
    let ghost list = views(extensions@);
    let ghost wanted = profile@;
    let mut i: usize = 0;
    while i < extensions.len()
        invariant
            i <= extensions.len(),
            list == views(extensions@),
            wanted == profile@,
            set@ == before.union(
                scoped_names(RegistryChildView::Extensions(list.take(i as int)), wanted),
            ),
        decreases extensions.len() - i,
    {
        proof {
            lemma_union_over_step(
                list,
                |extension: ExtensionView| extension_scoped_names(extension, wanted),
                i as int,
            );
        }
        add_blocks(set, &extensions[i].children, Some(profile));
        i += 1;
    }
    assert(list.take(extensions.len() as int) =~= list);
}

/// Adds to `set` all that the extensions supported by `profile` require.
fn add_supported_extensions(set: &mut ExclusionSet, extensions: &Vec<Extension>, profile: &String)
    ensures
        final(set)@ == old(set)@.union(
            supported_names(RegistryChildView::Extensions(views(extensions@)), profile@),
        ),
{
    let ghost before = set@;
    let ghost list = views(extensions@);
    let ghost wanted = profile@;
    let mut i: usize = 0;
    while i < extensions.len()
        invariant
            i <= extensions.len(),
            list == views(extensions@),
            wanted == profile@,
            set@ == before.union(
                supported_names(RegistryChildView::Extensions(list.take(i as int)), wanted),
            ),
        decreases extensions.len() - i,
    {
        proof {
            lemma_union_over_step(
                list,
                |extension: ExtensionView| extension_supported_names(extension, wanted),
                i as int,
            );
        }
        let extension = &extensions[i];
        let supported: bool = match &extension.supported {
            Some(named) => *named == *profile,
            None => false,
        };
        if supported {
            add_blocks(set, &extension.children, None);
        }
        i += 1;
    }
    assert(list.take(extensions.len() as int) =~= list);
}

/// Adds the first source to `set`: what the features declared for `profile`
/// require.
pub fn add_feature_requirements(set: &mut ExclusionSet, document: &SpecDocument, profile: &String)
    ensures
        final(set)@ == old(set)@.union(feature_requirements(document@, profile@)),
{
    let ghost before = set@;
    let ghost list = document@;
    let ghost wanted = profile@;
    let mut i: usize = 0;
    while i < document.children.len()
        invariant
            i <= document.children.len(),
            list == document@,
            wanted == profile@,
            set@ == before.union(feature_requirements(list.take(i as int), wanted)),
        decreases document.children.len() - i,
    {
        proof {
            lemma_union_over_step(
                list,
                |node: RegistryChildView| feature_names(node, wanted),
                i as int,
            );
        }
        match &document.children[i] {
            RegistryChild::Feature(feature) => {
                if feature.api == *profile {
                    add_blocks(set, &feature.children, None);
                }
            },
            _ => {},
        }
        i += 1;
    }
    assert(list.take(document.children.len() as int) =~= list);
}

/// Adds the second source to `set`: what extensions require in blocks of
/// their own that name `profile`.
pub fn add_scoped_requirements(set: &mut ExclusionSet, document: &SpecDocument, profile: &String)
    ensures
        final(set)@ == old(set)@.union(scoped_requirements(document@, profile@)),
{
    let ghost before = set@;
    let ghost list = document@;
    let ghost wanted = profile@;
    let mut i: usize = 0;
    while i < document.children.len()
        invariant
            i <= document.children.len(),
            list == document@,
            wanted == profile@,
            set@ == before.union(scoped_requirements(list.take(i as int), wanted)),
        decreases document.children.len() - i,
    {
        proof {
            lemma_union_over_step(
                list,
                |node: RegistryChildView| scoped_names(node, wanted),
                i as int,
            );
        }
        match &document.children[i] {
            RegistryChild::Extensions(extensions) => {
                add_scoped_extensions(set, extensions, profile);
            },
            _ => {},
        }
        i += 1;
    }
    assert(list.take(document.children.len() as int) =~= list);
}

/// Adds the third source to `set`: all that the extensions supported by
/// `profile` require.
pub fn add_supported_requirements(
    set: &mut ExclusionSet,
    document: &SpecDocument,
    profile: &String,
)
    ensures
        final(set)@ == old(set)@.union(supported_requirements(document@, profile@)),
{
    let ghost before = set@;
    let ghost list = document@;
    let ghost wanted = profile@;
    let mut i: usize = 0;
    while i < document.children.len()
        invariant
            i <= document.children.len(),
            list == document@,
            wanted == profile@,
            set@ == before.union(supported_requirements(list.take(i as int), wanted)),
        decreases document.children.len() - i,
    {
        proof {
            lemma_union_over_step(
                list,
                |node: RegistryChildView| supported_names(node, wanted),
                i as int,
            );
        }
        match &document.children[i] {
            RegistryChild::Extensions(extensions) => {
                add_supported_extensions(set, extensions, profile);
            },
            _ => {},
        }
        i += 1;
    }
    assert(list.take(document.children.len() as int) =~= list);
}

/// Builds the set of the type names that belong to `profile`.
pub fn build_exclusion_set(document: &SpecDocument, profile: &str) -> (set: ExclusionSet)
    ensures
        set@ == excluded_names(document@, profile@),
{
    let wanted: String = String::from_str(profile);
    let mut set = ExclusionSet::new();
    add_feature_requirements(&mut set, document, &wanted);
    add_scoped_requirements(&mut set, document, &wanted);
    add_supported_requirements(&mut set, document, &wanted);
    set
}

/// The exclusion set does not depend on the order in which its three
/// sources are united, and uniting it with itself or with one of its sources
/// once more changes nothing.
pub proof fn lemma_exclusion_union_order(document: Seq<RegistryChildView>, profile: Seq<char>)
    ensures
        ({
            let a = feature_requirements(document, profile);
            let b = scoped_requirements(document, profile);
            let c = supported_requirements(document, profile);
            let all = excluded_names(document, profile);
            &&& all == a.union(c).union(b)
            &&& all == b.union(a).union(c)
            &&& all == b.union(c).union(a)
            &&& all == c.union(a).union(b)
            &&& all == c.union(b).union(a)
            &&& all == a.union(b.union(c))
            &&& all.union(all) == all
            &&& all.union(a) == all
            &&& all.union(b) == all
            &&& all.union(c) == all
        }),
{
}

} // verus!
