use auto_notes::check;

#[test]
fn check_reports_resolved_directory() {
    let dir = String::from("/home/ada/.local/share/com.example.notes");
    assert_eq!(check(Some(dir.clone())), dir);
}

#[test]
fn check_reports_empty_path_when_unresolved() {
    assert_eq!(check(None), "");
}

#[test]
fn check_keeps_non_ascii_path() {
    let dir = String::from("C:\\Users\\Zoë\\AppData\\Roaming\\notes");
    assert_eq!(check(Some(dir.clone())), dir);
}
