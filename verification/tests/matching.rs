use launcher_search::matching::{chars_of, contains, contains_chars};

#[test]
fn chars_of_lists_the_characters_in_order() {
    assert_eq!(chars_of("Files"), vec!['F', 'i', 'l', 'e', 's']);
    assert_eq!(chars_of(""), Vec::<char>::new());
    assert_eq!(chars_of("héé"), vec!['h', 'é', 'é']);
    assert_eq!(chars_of("日本"), vec!['日', '本']);
}

#[test]
fn contains_finds_a_run_at_the_start_middle_and_end() {
    assert!(contains("Calculator", "Calc"));
    assert!(contains("Calculator", "cula"));
    assert!(contains("Calculator", "tor"));
    assert!(contains("Calculator", "Calculator"));
    assert!(contains("Calculator", "r"));
}

#[test]
fn contains_rejects_what_is_not_a_contiguous_run() {
    assert!(!contains("Calculator", "Cacl"));
    assert!(!contains("Calculator", "Cl"));
    assert!(!contains("Calculator", "Calculators"));
    assert!(!contains("Calculator", "calc"));
    assert!(!contains("Calculator", "tora"));
    assert!(!contains("", "a"));
}

#[test]
fn contains_finds_the_empty_text_everywhere() {
    assert!(contains("Calculator", ""));
    assert!(contains("", ""));
}

#[test]
fn contains_goes_on_after_a_partial_match() {
    assert!(contains("aaab", "aab"));
    assert!(contains("abababc", "ababc"));
    assert!(!contains("ababab", "ababc"));
    assert!(contains("xxFixFil", "Fil"));
}

#[test]
fn contains_agrees_with_the_standard_library() {
    let hays = ["", "a", "ab", "aba", "Files", "Firefox", "Text Editor", "ééé", "aéa"];
    let needles = ["", "a", "b", "ab", "ba", "Fi", "fi", "e", "é", "éé", "x E", "Text Editor!"];
    for hay in hays {
        for needle in needles {
            assert_eq!(contains(hay, needle), hay.contains(needle));
            assert_eq!(contains(hay, needle), hay.matches(needle).count() != 0);
        }
    }
}

#[test]
fn contains_chars_compares_characters_exactly() {
    let hay = ['F', 'i', 'l', 'e', 's'];
    assert!(contains_chars(&hay, &['i', 'l']));
    assert!(contains_chars(&hay, &['s']));
    assert!(contains_chars(&hay, &[]));
    assert!(!contains_chars(&hay, &['f']));
    assert!(!contains_chars(&hay, &['l', 'i']));
    assert!(!contains_chars(&hay, &['F', 'i', 'l', 'e', 's', 's']));
    assert!(!contains_chars(&[], &['s']));
    assert!(contains_chars(&[], &[]));
}
