use window_selector::startup::{quote_exe_path, startup_entry_matches};

#[test]
fn path_with_space_is_quoted() {
    assert_eq!(quote_exe_path(r"C:\Program Files\ws.exe"), "\"C:\\Program Files\\ws.exe\"");
}

#[test]
fn path_without_space_is_kept() {
    assert_eq!(quote_exe_path(r"C:\tools\ws.exe"), r"C:\tools\ws.exe");
    assert_eq!(quote_exe_path(""), "");
}

#[test]
fn entry_matches_ignoring_quotes() {
    assert!(startup_entry_matches("\"C:\\Program Files\\ws.exe\"", r"C:\Program Files\ws.exe"));
    assert!(startup_entry_matches(r"C:\tools\ws.exe", "\"C:\\tools\\ws.exe\""));
    assert!(startup_entry_matches("\"\"a\"", "a\"\""));
}

#[test]
fn entry_for_another_path_does_not_match() {
    assert!(!startup_entry_matches(r"C:\old\ws.exe", r"C:\new\ws.exe"));
    assert!(!startup_entry_matches(r"C:\ws.exe", r"C:\ws.exe2"));
    assert!(!startup_entry_matches("", "a"));
}

#[test]
fn written_entry_is_recognised_as_the_current_executable() {
    for path in [r"C:\Program Files\ws.exe", r"C:\tools\ws.exe", "\"odd path\"", ""] {
        assert!(startup_entry_matches(&quote_exe_path(path), path), "{}", path);
    }
}
