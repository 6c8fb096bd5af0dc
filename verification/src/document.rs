//! The parsed API description, as far as table generation reads it.
//!
//! Every type here holds plain values and has a view that replaces each
//! string by its characters and each vector by a sequence of views.

use vstd::prelude::*;

verus! {

/// The characters of an optional string.
pub open spec fn text_of(text: Option<String>) -> Option<Seq<char>> {
    match text {
        Some(s) => Some(s@),
        None => None,
    }
}

/// The views of the elements of a list, in its order.
pub open spec fn views<T: View>(list: Seq<T>) -> Seq<T::V> {
    list.map_values(|element: T| element@)
}

/// A field of a structure: its declaration and, where the description fixes
/// the field to one enumerant, that enumerant's name.
#[derive(Debug, Clone, PartialEq, Eq)]
pub struct MemberDefinition {
    pub code: String,
    pub values: Option<String>,
}

/// What a `MemberDefinition` holds, as characters and sequences.
pub struct MemberDefinitionView {
    pub code: Seq<char>,
    pub values: Option<Seq<char>>,
}

impl View for MemberDefinition {
    type V = MemberDefinitionView;

    open spec fn view(&self) -> MemberDefinitionView {
        MemberDefinitionView { code: self.code@, values: text_of(self.values) }
    }
}

/// One entry of a structure's member list.
#[derive(Debug, Clone, PartialEq, Eq)]
pub enum MemberDecl {
    Comment(String),
    Definition(MemberDefinition),
}

/// What a `MemberDecl` holds, as characters and sequences.
pub enum MemberDeclView {
    Comment(Seq<char>),
    Definition(MemberDefinitionView),
}

impl View for MemberDecl {
    type V = MemberDeclView;

    open spec fn view(&self) -> MemberDeclView {
        match self {
            MemberDecl::Comment(text) => MemberDeclView::Comment(text@),
            MemberDecl::Definition(def) => MemberDeclView::Definition(def@),
        }
    }
}

/// The views of a member list, in its order.
pub open spec fn members_of(members: Option<Vec<MemberDecl>>) -> Option<Seq<MemberDeclView>> {
    match members {
        Some(list) => Some(views(list@)),
        None => None,
    }
}

/// A type declaration. `members` is absent where the type is no structure
/// with a member list (an alias, a handle, a base type).
#[derive(Debug, Clone, PartialEq, Eq)]
pub struct TypeDef {
    pub name: Option<String>,
    pub members: Option<Vec<MemberDecl>>,
}

/// What a `TypeDef` holds, as characters and sequences.
pub struct TypeDefView {
    pub name: Option<Seq<char>>,
    pub members: Option<Seq<MemberDeclView>>,
}

impl View for TypeDef {
    type V = TypeDefView;

    open spec fn view(&self) -> TypeDefView {
        TypeDefView { name: text_of(self.name), members: members_of(self.members) }
    }
}

/// One entry of a block of type declarations.
#[derive(Debug, Clone, PartialEq, Eq)]
pub enum TypesChild {
    Type(TypeDef),
    Comment(String),
}

/// What a `TypesChild` holds, as characters and sequences.
pub enum TypesChildView {
    Type(TypeDefView),
    Comment(Seq<char>),
}

impl View for TypesChild {
    type V = TypesChildView;

    open spec fn view(&self) -> TypesChildView {
        match self {
            TypesChild::Type(t) => TypesChildView::Type(t@),
            TypesChild::Comment(text) => TypesChildView::Comment(text@),
        }
    }
}

/// One thing that a feature or an extension asks for. Only type names matter
/// here; commands, enumerants and comments are `Other`.
#[derive(Debug, Clone, PartialEq, Eq)]
pub enum InterfaceItem {
    Type { name: String },
    Other,
}

/// What an `InterfaceItem` holds, as characters and sequences.
pub enum InterfaceItemView {
    Type { name: Seq<char> },
    Other,
}

impl View for InterfaceItem {
    type V = InterfaceItemView;

    open spec fn view(&self) -> InterfaceItemView {
        match self {
            InterfaceItem::Type { name } => InterfaceItemView::Type { name: name@ },
            InterfaceItem::Other => InterfaceItemView::Other,
        }
    }
}

/// One block of a feature or an extension. A `Require` block lists what is
/// asked for, for the profile `api` where it names one. Blocks that remove or
/// deprecate are `Other`.
#[derive(Debug, Clone, PartialEq, Eq)]
pub enum ExtensionChild {
    Require { api: Option<String>, items: Vec<InterfaceItem> },
    Other,
}

/// What an `ExtensionChild` holds, as characters and sequences.
pub enum ExtensionChildView {
    Require { api: Option<Seq<char>>, items: Seq<InterfaceItemView> },
    Other,
}

impl View for ExtensionChild {
    type V = ExtensionChildView;

    open spec fn view(&self) -> ExtensionChildView {
        match self {
            ExtensionChild::Require { api, items } => ExtensionChildView::Require {
                api: text_of(*api),
                items: views(items@),
            },
            ExtensionChild::Other => ExtensionChildView::Other,
        }
    }
}

/// A feature level of the API, declared for the profiles that `api` names.
#[derive(Debug, Clone, PartialEq, Eq)]
pub struct Feature {
    pub api: String,
    pub children: Vec<ExtensionChild>,
}

/// What a `Feature` holds, as characters and sequences.
pub struct FeatureView {
    pub api: Seq<char>,
    pub children: Seq<ExtensionChildView>,
}

impl View for Feature {
    type V = FeatureView;

    open spec fn view(&self) -> FeatureView {
        FeatureView {
            api: self.api@,
            children: views(self.children@),
        }
    }
}

/// An extension, with the profiles that support it where it names them.
#[derive(Debug, Clone, PartialEq, Eq)]
pub struct Extension {
    pub supported: Option<String>,
    pub children: Vec<ExtensionChild>,
}

/// What an `Extension` holds, as characters and sequences.
pub struct ExtensionView {
    pub supported: Option<Seq<char>>,
    pub children: Seq<ExtensionChildView>,
}

impl View for Extension {
    type V = ExtensionView;

    open spec fn view(&self) -> ExtensionView {
        ExtensionView {
            supported: text_of(self.supported),
            children: views(self.children@),
        }
    }
}

/// A top-level node of the description. Nodes that table generation does not
/// read are `Other`.
#[derive(Debug, Clone, PartialEq, Eq)]
pub enum RegistryChild {
    Types(Vec<TypesChild>),
    Feature(Feature),
    Extensions(Vec<Extension>),
    Other,
}

/// What a `RegistryChild` holds, as characters and sequences.
pub enum RegistryChildView {
    Types(Seq<TypesChildView>),
    Feature(FeatureView),
    Extensions(Seq<ExtensionView>),
    Other,
}

impl View for RegistryChild {
    type V = RegistryChildView;

    open spec fn view(&self) -> RegistryChildView {
        match self {
            RegistryChild::Types(children) => RegistryChildView::Types(
                views(children@),
            ),
            RegistryChild::Feature(feature) => RegistryChildView::Feature(feature@),
            RegistryChild::Extensions(extensions) => RegistryChildView::Extensions(
                views(extensions@),
            ),
            RegistryChild::Other => RegistryChildView::Other,
        }
    }
}

/// The whole description: its top-level nodes in document order.
#[derive(Debug, Clone, PartialEq, Eq)]
pub struct SpecDocument {
    pub children: Vec<RegistryChild>,
}

impl View for SpecDocument {
    type V = Seq<RegistryChildView>;

    open spec fn view(&self) -> Seq<RegistryChildView> {
        views(self.children@)
    }
}

} // verus!
