use launcher_search::registry::{ApplicationDescriptor, ApplicationRegistry};

fn registry_of(names: &[&str]) -> ApplicationRegistry {
    ApplicationRegistry::new(
        names.iter().map(|name| ApplicationDescriptor::new(name.to_string())).collect(),
    )
}

#[test]
fn descriptor_keeps_its_name() {
    let descriptor = ApplicationDescriptor::new("Text Editor".to_string());
    assert_eq!(descriptor.name(), "Text Editor");
    let unnamed = ApplicationDescriptor::new(String::new());
    assert_eq!(unnamed.name(), "");
}

#[test]
fn descriptor_matches_text_that_its_name_contains() {
    let descriptor = ApplicationDescriptor::new("Text Editor".to_string());
    assert!(descriptor.matches("Text"));
    assert!(descriptor.matches("t E"));
    assert!(descriptor.matches("Text Editor"));
    assert!(!descriptor.matches("text"));
    assert!(!descriptor.matches("Editors"));
    assert!(descriptor.matches_chars(&['d', 'i', 't']));
    assert!(!descriptor.matches_chars(&['D', 'i', 't']));
}

#[test]
fn descriptor_never_matches_the_empty_text() {
    let descriptor = ApplicationDescriptor::new("Text Editor".to_string());
    assert!(!descriptor.matches(""));
    assert!(!descriptor.matches_chars(&[]));
    let unnamed = ApplicationDescriptor::new(String::new());
    assert!(!unnamed.matches(""));
    assert!(!unnamed.matches("a"));
}

#[test]
fn registry_keeps_the_order_it_was_given() {
    let registry = registry_of(&["Files", "Firefox", "Calculator"]);
    assert_eq!(registry.len(), 3);
    assert!(!registry.is_empty());
    assert_eq!(registry.get(0).unwrap().name(), "Files");
    assert_eq!(registry.get(1).unwrap().name(), "Firefox");
    assert_eq!(registry.get(2).unwrap().name(), "Calculator");
    assert!(registry.get(3).is_none());
    assert!(registry.get(usize::MAX).is_none());
}

#[test]
fn empty_registry_is_valid() {
    let registry = registry_of(&[]);
    assert_eq!(registry.len(), 0);
    assert!(registry.is_empty());
    assert!(registry.get(0).is_none());
    assert_eq!(registry.matching("a"), Vec::<String>::new());
    assert_eq!(registry.matching(""), Vec::<String>::new());
}

#[test]
fn matching_returns_the_names_in_registry_order() {
    let registry = registry_of(&["Files", "Firefox", "Calculator"]);
    assert_eq!(registry.matching("Fi"), vec!["Files".to_string(), "Firefox".to_string()]);
    assert_eq!(registry.matching("l"), vec!["Files".to_string(), "Calculator".to_string()]);
    assert_eq!(registry.matching("Calculator"), vec!["Calculator".to_string()]);
    assert_eq!(registry.matching("fi"), Vec::<String>::new());
    assert_eq!(registry.matching("zz"), Vec::<String>::new());
    assert_eq!(registry.matching(""), Vec::<String>::new());
}

#[test]
fn matching_keeps_each_listing_of_a_repeated_name() {
    let registry = registry_of(&["Settings", "Files", "Settings"]);
    assert_eq!(registry.matching("Set"), vec!["Settings".to_string(), "Settings".to_string()]);
    assert_eq!(
        registry.matching("s"),
        vec!["Settings".to_string(), "Files".to_string(), "Settings".to_string()]
    );
}
