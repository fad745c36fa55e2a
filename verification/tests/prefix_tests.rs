use flattener::leading_char;
use flattener::new_prefix;

#[test]
fn leading_char_for_filename() {
    assert_eq!(leading_char("file.txt"), 'f');
}

#[test]
fn leading_char_of_marked_names() {
    assert_eq!(leading_char(".hidden"), '.');
    assert_eq!(leading_char("_scratch"), '_');
}

#[test]
fn new_prefix_empty_old_prefix() {
    assert_eq!("tail", new_prefix("", "tail"));
}

#[test]
fn new_prefix_leading_dash_or_plus() {
    assert_eq!("a - b", new_prefix("a", "-b"));
    assert_eq!("a - b", new_prefix("a", "+b"));
}

#[test]
fn new_prefix_works() {
    assert_eq!("a - b", new_prefix("a", "B"));
    assert_eq!("a - b - c", new_prefix("a - b", "C"));
}

#[test]
fn new_prefix_case_folds_first_segment() {
    assert_eq!("tail", new_prefix("", "TAIL"));
    assert_eq!("tail", new_prefix("", "-Tail"));
}

#[test]
fn new_prefix_case_folds_old_prefix_too() {
    assert_eq!("abc - def", new_prefix("ABC", "DeF"));
}

#[test]
fn new_prefix_strips_at_most_one_sign() {
    assert_eq!("-b", new_prefix("", "--b"));
    assert_eq!("+b", new_prefix("", "-+b"));
}

#[test]
fn new_prefix_sign_only_directory_name() {
    assert_eq!("", new_prefix("", "-"));
    assert_eq!("a - ", new_prefix("a", "+"));
}

#[test]
fn new_prefix_chaining() {
    let a = new_prefix("", "a");
    let ab = new_prefix(&a, "b");
    assert_eq!("a - b - c", new_prefix(&ab, "c"));
}

#[test]
fn new_prefix_folds_unicode_names() {
    assert_eq!("a - äb", new_prefix("a", "ÄB"));
    assert_eq!("straße", new_prefix("", "Straße"));
}
