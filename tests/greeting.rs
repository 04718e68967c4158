use auto_notes::greet;

#[test]
fn greet_ada() {
    assert_eq!(greet("Ada"), "Hello, Ada! You've been greeted from Rust!");
}

#[test]
fn greet_empty_name() {
    assert_eq!(greet(""), "Hello, ! You've been greeted from Rust!");
}

#[test]
fn greet_keeps_special_characters() {
    let name = "<b>\"Zoë\" {x} \\n & O'Brien</b>";
    let expected = format!("Hello, {}! You've been greeted from Rust!", name);
    assert_eq!(greet(name), expected);
}

#[test]
fn greet_keeps_long_and_multiline_names() {
    let name = "line one\nline two\t".repeat(100);
    let r = greet(&name);
    assert!(r.starts_with("Hello, "));
    assert!(r.ends_with("! You've been greeted from Rust!"));
    assert_eq!(&r[7..7 + name.len()], name.as_str());
    assert_eq!(r.chars().count(), name.chars().count() + 39);
}
