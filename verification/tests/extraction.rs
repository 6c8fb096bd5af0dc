use generator::document::{MemberDecl, MemberDefinition, TypeDef};
use generator::entries::{NameEntry, SizeEntry};
use generator::exclusion::ExclusionSet;
use generator::{generate_struct_name, generate_struct_type_size};

fn definition(code: &str, values: Option<&str>) -> MemberDecl {
    MemberDecl::Definition(MemberDefinition {
        code: code.to_string(),
        values: values.map(|v| v.to_string()),
    })
}

fn tagged(name: &str, tag: &str) -> TypeDef {
    TypeDef {
        name: Some(name.to_string()),
        members: Some(vec![
            definition("VkStructureType sType", Some(tag)),
            definition("const void* pNext", None),
            definition("uint32_t count", None),
        ]),
    }
}

fn excluding(names: &[&str]) -> ExclusionSet {
    let mut set = ExclusionSet::new();
    for name in names {
        set.insert(name.to_string());
    }
    set
}

#[test]
fn tagged_structure_gets_both_entries() {
    let t = tagged("VkFoo", "STRUCTURE_TYPE_FOO");
    let none = ExclusionSet::new();
    assert_eq!(
        generate_struct_type_size(&t, &none),
        Some(SizeEntry { target: "Foo".to_string() })
    );
    assert_eq!(
        generate_struct_name(&t, &none),
        Some(NameEntry { target: "Foo".to_string(), tag: "STRUCTURE_TYPE_FOO".to_string() })
    );
}

#[test]
fn name_without_prefix_is_kept() {
    let t = tagged("StdVideoThing", "STRUCTURE_TYPE_THING");
    let none = ExclusionSet::new();
    assert_eq!(
        generate_struct_type_size(&t, &none),
        Some(SizeEntry { target: "StdVideoThing".to_string() })
    );
    assert_eq!(
        generate_struct_name(&t, &none),
        Some(NameEntry {
            target: "StdVideoThing".to_string(),
            tag: "STRUCTURE_TYPE_THING".to_string()
        })
    );
}

#[test]
fn type_without_name_gets_no_entry() {
    let mut t = tagged("VkFoo", "STRUCTURE_TYPE_FOO");
    t.name = None;
    let none = ExclusionSet::new();
    assert_eq!(generate_struct_type_size(&t, &none), None);
    assert_eq!(generate_struct_name(&t, &none), None);
}

#[test]
fn type_without_member_list_gets_no_entry() {
    let t = TypeDef { name: Some("VkFoo".to_string()), members: None };
    let none = ExclusionSet::new();
    assert_eq!(generate_struct_type_size(&t, &none), None);
    assert_eq!(generate_struct_name(&t, &none), None);
}

#[test]
fn excluded_type_gets_no_entry() {
    let t = tagged("VkBar", "STRUCTURE_TYPE_BAR");
    let set = excluding(&["VkBar"]);
    assert_eq!(generate_struct_type_size(&t, &set), None);
    assert_eq!(generate_struct_name(&t, &set), None);
}

#[test]
fn exclusion_goes_by_the_name_before_stripping() {
    let t = tagged("VkBar", "STRUCTURE_TYPE_BAR");
    let set = excluding(&["Bar", "VkBaz", "vkbar"]);
    assert_eq!(generate_struct_type_size(&t, &set), Some(SizeEntry { target: "Bar".to_string() }));
    assert_eq!(
        generate_struct_name(&t, &set),
        Some(NameEntry { target: "Bar".to_string(), tag: "STRUCTURE_TYPE_BAR".to_string() })
    );
}

#[test]
fn member_list_without_tag_field_gets_no_entry() {
    let t = TypeDef {
        name: Some("VkExtent2D".to_string()),
        members: Some(vec![
            definition("uint32_t width", None),
            definition("uint32_t height", Some("STRUCTURE_TYPE_NOT_A_TAG")),
            MemberDecl::Comment("VkStructureType sType".to_string()),
        ]),
    };
    let none = ExclusionSet::new();
    assert_eq!(generate_struct_type_size(&t, &none), None);
    assert_eq!(generate_struct_name(&t, &none), None);
}

#[test]
fn empty_member_list_gets_no_entry() {
    let t = TypeDef { name: Some("VkEmpty".to_string()), members: Some(vec![]) };
    let none = ExclusionSet::new();
    assert_eq!(generate_struct_type_size(&t, &none), None);
    assert_eq!(generate_struct_name(&t, &none), None);
}

#[test]
fn tag_field_without_fixed_value_gets_no_entry() {
    let t = TypeDef {
        name: Some("VkBaseInStructure".to_string()),
        members: Some(vec![
            definition("VkStructureType sType", None),
            definition("const struct VkBaseInStructure* pNext", None),
        ]),
    };
    let none = ExclusionSet::new();
    assert_eq!(generate_struct_type_size(&t, &none), None);
    assert_eq!(generate_struct_name(&t, &none), None);
}

#[test]
fn only_the_first_tag_field_counts() {
    let unfixed_first = TypeDef {
        name: Some("VkTwice".to_string()),
        members: Some(vec![
            definition("VkStructureType first", None),
            definition("VkStructureType second", Some("STRUCTURE_TYPE_SECOND")),
        ]),
    };
    let none = ExclusionSet::new();
    assert_eq!(generate_struct_type_size(&unfixed_first, &none), None);
    assert_eq!(generate_struct_name(&unfixed_first, &none), None);

    let fixed_first = TypeDef {
        name: Some("VkTwice".to_string()),
        members: Some(vec![
            MemberDecl::Comment("leading comment".to_string()),
            definition("uint32_t before", Some("STRUCTURE_TYPE_BEFORE")),
            definition("VkStructureType first", Some("STRUCTURE_TYPE_FIRST")),
            definition("VkStructureType second", Some("STRUCTURE_TYPE_SECOND")),
        ]),
    };
    assert_eq!(
        generate_struct_name(&fixed_first, &none),
        Some(NameEntry { target: "Twice".to_string(), tag: "STRUCTURE_TYPE_FIRST".to_string() })
    );
    assert_eq!(
        generate_struct_type_size(&fixed_first, &none),
        Some(SizeEntry { target: "Twice".to_string() })
    );
}

#[test]
fn tag_field_is_found_by_the_start_of_its_declaration() {
    let t = TypeDef {
        name: Some("VkOdd".to_string()),
        members: Some(vec![
            definition("const VkStructureType sType", Some("STRUCTURE_TYPE_CONST")),
            definition("VkStructureTypeKHR sType", Some("STRUCTURE_TYPE_LONGER")),
        ]),
    };
    let none = ExclusionSet::new();
    assert_eq!(
        generate_struct_name(&t, &none),
        Some(NameEntry { target: "Odd".to_string(), tag: "STRUCTURE_TYPE_LONGER".to_string() })
    );
}

#[test]
fn both_tables_name_the_same_structure() {
    let none = ExclusionSet::new();
    for name in ["VkFoo", "Foo", "VkVkFoo", "Vk", "vkFoo", "VkImageCreateInfo2KHR"] {
        let t = tagged(name, "STRUCTURE_TYPE_ANY");
        let size = generate_struct_type_size(&t, &none).unwrap();
        let named = generate_struct_name(&t, &none).unwrap();
        assert_eq!(size.target, named.target);
        assert_eq!(size.target, generator::vkspec_name_to_ash_struct_name(name));
    }
}
