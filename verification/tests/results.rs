use launcher_search::results::ResultsContainer;

#[test]
fn new_container_is_empty_and_hidden() {
    let container = ResultsContainer::new();
    assert!(container.is_empty());
    assert_eq!(container.len(), 0);
    assert!(!container.is_visible());
    assert_eq!(container.rows(), &Vec::<String>::new());
}

#[test]
fn push_appends_below_and_keeps_visibility() {
    let mut container = ResultsContainer::new();
    container.push("Files".to_string());
    container.push("Firefox".to_string());
    assert_eq!(container.rows(), &vec!["Files".to_string(), "Firefox".to_string()]);
    assert_eq!(container.len(), 2);
    assert!(!container.is_empty());
    assert!(!container.is_visible());
    container.set_visible(true);
    container.push("Files".to_string());
    assert_eq!(
        container.rows(),
        &vec!["Files".to_string(), "Firefox".to_string(), "Files".to_string()]
    );
    assert!(container.is_visible());
}

#[test]
fn clear_discards_every_row_and_keeps_visibility() {
    let mut container = ResultsContainer::new();
    container.push("Files".to_string());
    container.push("Firefox".to_string());
    container.set_visible(true);
    container.clear();
    assert!(container.is_empty());
    assert_eq!(container.len(), 0);
    assert!(container.is_visible());
    container.set_visible(false);
    container.clear();
    assert!(container.is_empty());
    assert!(!container.is_visible());
}

#[test]
fn set_visible_keeps_the_rows() {
    let mut container = ResultsContainer::new();
    container.push("Calculator".to_string());
    container.set_visible(true);
    assert!(container.is_visible());
    assert_eq!(container.rows(), &vec!["Calculator".to_string()]);
    container.set_visible(false);
    assert!(!container.is_visible());
    assert_eq!(container.rows(), &vec!["Calculator".to_string()]);
}
