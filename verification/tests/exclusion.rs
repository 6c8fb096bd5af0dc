use generator::document::{
    Extension, ExtensionChild, Feature, InterfaceItem, RegistryChild, SpecDocument,
};
use generator::exclusion::{
    add_feature_requirements, add_scoped_requirements, add_supported_requirements,
    build_exclusion_set, ExclusionSet,
};

fn type_item(name: &str) -> InterfaceItem {
    InterfaceItem::Type { name: name.to_string() }
}

fn require(api: Option<&str>, names: &[&str]) -> ExtensionChild {
    let mut items = vec![InterfaceItem::Other];
    for name in names {
        items.push(type_item(name));
    }
    ExtensionChild::Require { api: api.map(|a| a.to_string()), items }
}

fn feature(api: &str, children: Vec<ExtensionChild>) -> RegistryChild {
    RegistryChild::Feature(Feature { api: api.to_string(), children })
}

fn extension(supported: Option<&str>, children: Vec<ExtensionChild>) -> Extension {
    Extension { supported: supported.map(|s| s.to_string()), children }
}

fn sample() -> SpecDocument {
    SpecDocument {
        children: vec![
            RegistryChild::Other,
            feature("vulkan", vec![require(None, &["VkPlain"]), require(Some("vulkansc"), &["VkViaFeatureBlock"])]),
            feature("vulkansc", vec![
                require(None, &["VkFromFeature", "VkShared"]),
                ExtensionChild::Other,
                require(Some("vulkan"), &["VkFromFeatureOtherApi"]),
            ]),
            RegistryChild::Extensions(vec![
                extension(Some("vulkan"), vec![
                    require(Some("vulkansc"), &["VkScoped", "VkShared"]),
                    require(None, &["VkUnscoped"]),
                    require(Some("vulkan"), &["VkScopedElsewhere"]),
                ]),
                extension(Some("vulkansc"), vec![
                    require(None, &["VkSupported"]),
                    require(Some("vulkan"), &["VkSupportedOtherApi"]),
                    ExtensionChild::Other,
                ]),
                extension(None, vec![require(None, &["VkNoProfile"])]),
            ]),
            RegistryChild::Types(vec![]),
        ],
    }
}

fn names_of(set: &ExclusionSet, candidates: &[&str]) -> Vec<String> {
    let mut found = Vec::new();
    for name in candidates {
        if set.contains(name) {
            found.push(name.to_string());
        }
    }
    found
}

const ALL: [&str; 12] = [
    "VkPlain",
    "VkViaFeatureBlock",
    "VkFromFeature",
    "VkShared",
    "VkFromFeatureOtherApi",
    "VkScoped",
    "VkUnscoped",
    "VkScopedElsewhere",
    "VkSupported",
    "VkSupportedOtherApi",
    "VkNoProfile",
    "VkAbsent",
];

#[test]
fn new_set_is_empty() {
    let set = ExclusionSet::new();
    assert_eq!(set.len(), 0);
    assert!(!set.contains("VkFoo"));
    assert!(!set.contains(""));
}

#[test]
fn insert_adds_a_name_once() {
    let mut set = ExclusionSet::new();
    set.insert("VkFoo".to_string());
    assert!(set.contains("VkFoo"));
    assert!(!set.contains("VkBar"));
    assert_eq!(set.len(), 1);
    set.insert("VkFoo".to_string());
    assert_eq!(set.len(), 1);
    set.insert("VkBar".to_string());
    assert_eq!(set.len(), 2);
    assert!(set.contains("VkBar"));
}

#[test]
fn features_of_the_profile_contribute_all_their_requirements() {
    let mut set = ExclusionSet::new();
    add_feature_requirements(&mut set, &sample(), &"vulkansc".to_string());
    assert_eq!(
        names_of(&set, &ALL),
        vec!["VkFromFeature", "VkShared", "VkFromFeatureOtherApi"]
    );
    assert_eq!(set.len(), 3);
}

#[test]
fn extension_blocks_that_name_the_profile_contribute() {
    let mut set = ExclusionSet::new();
    add_scoped_requirements(&mut set, &sample(), &"vulkansc".to_string());
    assert_eq!(names_of(&set, &ALL), vec!["VkShared", "VkScoped"]);
    assert_eq!(set.len(), 2);
}

#[test]
fn extensions_supported_by_the_profile_contribute_all_their_requirements() {
    let mut set = ExclusionSet::new();
    add_supported_requirements(&mut set, &sample(), &"vulkansc".to_string());
    assert_eq!(names_of(&set, &ALL), vec!["VkSupported", "VkSupportedOtherApi"]);
    assert_eq!(set.len(), 2);
}

#[test]
fn exclusion_set_is_the_union_of_the_three_sources() {
    let set = build_exclusion_set(&sample(), "vulkansc");
    assert_eq!(
        names_of(&set, &ALL),
        vec![
            "VkFromFeature",
            "VkShared",
            "VkFromFeatureOtherApi",
            "VkScoped",
            "VkSupported",
            "VkSupportedOtherApi"
        ]
    );
    assert_eq!(set.len(), 6);
}

#[test]
fn exclusion_set_does_not_depend_on_the_order_of_the_sources() {
    let doc = sample();
    let profile = "vulkansc".to_string();
    let built = build_exclusion_set(&doc, "vulkansc");

    let mut reversed = ExclusionSet::new();
    add_supported_requirements(&mut reversed, &doc, &profile);
    add_scoped_requirements(&mut reversed, &doc, &profile);
    add_feature_requirements(&mut reversed, &doc, &profile);
    assert_eq!(names_of(&reversed, &ALL), names_of(&built, &ALL));
    assert_eq!(reversed.len(), built.len());

    let mut twice = build_exclusion_set(&doc, "vulkansc");
    add_scoped_requirements(&mut twice, &doc, &profile);
    add_feature_requirements(&mut twice, &doc, &profile);
    add_supported_requirements(&mut twice, &doc, &profile);
    assert_eq!(names_of(&twice, &ALL), names_of(&built, &ALL));
    assert_eq!(twice.len(), built.len());
}

#[test]
fn building_twice_gives_the_same_set() {
    let doc = sample();
    let first = build_exclusion_set(&doc, "vulkansc");
    let second = build_exclusion_set(&doc, "vulkansc");
    assert_eq!(names_of(&first, &ALL), names_of(&second, &ALL));
    assert_eq!(first.len(), second.len());
}

#[test]
fn absent_attributes_match_no_profile() {
    let doc = SpecDocument {
        children: vec![RegistryChild::Extensions(vec![extension(
            None,
            vec![require(None, &["VkNoProfile"])],
        )])],
    };
    let set = build_exclusion_set(&doc, "vulkansc");
    assert_eq!(set.len(), 0);
    let empty_profile = build_exclusion_set(&doc, "");
    assert_eq!(empty_profile.len(), 0);
}

#[test]
fn profile_must_match_the_whole_attribute() {
    let doc = SpecDocument {
        children: vec![
            feature("vulkan,vulkansc", vec![require(None, &["VkListed"])]),
            RegistryChild::Extensions(vec![
                extension(Some("vulkan,vulkansc"), vec![require(None, &["VkListedToo"])]),
                extension(None, vec![require(Some("vulkansc "), &["VkSpaced"])]),
            ]),
        ],
    };
    let set = build_exclusion_set(&doc, "vulkansc");
    assert_eq!(set.len(), 0);
}

#[test]
fn nodes_without_matching_blocks_contribute_nothing() {
    let doc = SpecDocument {
        children: vec![
            feature("vulkansc", vec![]),
            feature("vulkansc", vec![ExtensionChild::Other]),
            feature("vulkansc", vec![require(None, &[])]),
            RegistryChild::Extensions(vec![]),
            RegistryChild::Extensions(vec![extension(Some("vulkansc"), vec![])]),
        ],
    };
    assert_eq!(build_exclusion_set(&doc, "vulkansc").len(), 0);
    assert_eq!(build_exclusion_set(&SpecDocument { children: vec![] }, "vulkansc").len(), 0);
}

#[test]
fn another_profile_gives_another_set() {
    let set = build_exclusion_set(&sample(), "vulkan");
    assert_eq!(
        names_of(&set, &ALL),
        vec![
            "VkPlain",
            "VkViaFeatureBlock",
            "VkShared",
            "VkScoped",
            "VkUnscoped",
            "VkScopedElsewhere",
            "VkSupportedOtherApi"
        ]
    );
    assert_eq!(set.len(), 7);
}
