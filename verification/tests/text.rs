use input_dispatch::text::remove_all;

#[test]
fn remove_all_takes_every_occurrence_out() {
    assert_eq!(remove_all("KeyShift: Resize, KeyAlt: Resize, ", "Key"), "Shift: Resize, Alt: Resize, ");
}

#[test]
fn remove_all_leaves_text_without_the_pattern() {
    assert_eq!(remove_all("Lmb: DragStart, ", "Key"), "Lmb: DragStart, ");
    assert_eq!(remove_all("", "Key"), "");
    assert_eq!(remove_all("Ke", "Key"), "Ke");
}

#[test]
fn remove_all_searches_on_behind_each_occurrence() {
    assert_eq!(remove_all("KKeyey", "Key"), "Key");
    assert_eq!(remove_all("aaa", "aa"), "a");
    assert_eq!(remove_all("KeyKeyKey", "Key"), "");
}

#[test]
fn remove_all_with_an_empty_pattern_changes_nothing() {
    assert_eq!(remove_all("abc", ""), "abc");
}

#[test]
fn remove_all_agrees_with_replace_on_text_beyond_ascii() {
    let text = "KeyÄ: Größe, Key€";
    assert_eq!(remove_all(text, "Key"), text.replace("Key", ""));
    assert_eq!(remove_all(text, "ö"), text.replace("ö", ""));
}
