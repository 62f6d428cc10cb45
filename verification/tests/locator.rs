use sidebar_plugin::locator::{
    first_line, marker_file_path, marker_install_dir, resolve_install_dir, trim_spaces,
    HostPlatform, LocateError,
};

#[test]
fn override_wins_over_marker() {
    let r = resolve_install_dir(
        HostPlatform::Linux,
        Some("/custom/bn".to_string()),
        Some("/home/u".to_string()),
        Some("/marker/path\n".to_string()),
        None,
    );
    assert_eq!(r, Ok("/custom/bn".to_string()));
}

#[test]
fn override_wins_even_without_home() {
    let r = resolve_install_dir(
        HostPlatform::Windows,
        Some("D:\\bn".to_string()),
        None,
        None,
        None,
    );
    assert_eq!(r, Ok("D:\\bn".to_string()));
}

#[test]
fn marker_first_line_trimmed() {
    let r = resolve_install_dir(
        HostPlatform::MacOs,
        None,
        Some("/Users/u".to_string()),
        Some("  /opt/binaryninja \nsecond line".to_string()),
        None,
    );
    assert_eq!(r, Ok("/opt/binaryninja".to_string()));
}

#[test]
fn marker_windows_line_ending() {
    let r = resolve_install_dir(
        HostPlatform::Windows,
        None,
        Some("C:\\Users\\u\\AppData\\Roaming".to_string()),
        Some("C:\\bn\r\n".to_string()),
        Some("C:\\Program Files".to_string()),
    );
    assert_eq!(r, Ok("C:\\bn".to_string()));
}

#[test]
fn empty_marker_resolves_to_empty_path() {
    let r = resolve_install_dir(
        HostPlatform::Linux,
        None,
        Some("/home/u".to_string()),
        Some(String::new()),
        None,
    );
    assert_eq!(r, Ok(String::new()));
}

#[test]
fn default_linux_is_under_home() {
    let r = resolve_install_dir(HostPlatform::Linux, None, Some("/home/u".to_string()), None, None);
    assert_eq!(r, Ok("/home/u/binaryninja".to_string()));
}

#[test]
fn default_macos_is_fixed() {
    let r = resolve_install_dir(
        HostPlatform::MacOs,
        None,
        Some("/Users/u".to_string()),
        None,
        None,
    );
    assert_eq!(r, Ok("/Applications/Binary Ninja.app/Contents/MacOS".to_string()));
}

#[test]
fn default_windows_is_under_program_files() {
    let r = resolve_install_dir(
        HostPlatform::Windows,
        None,
        Some("C:\\Users\\u\\AppData\\Roaming".to_string()),
        None,
        Some("C:\\Program Files".to_string()),
    );
    assert_eq!(r, Ok("C:\\Program Files\\Vector35\\BinaryNinja\\".to_string()));
}

#[test]
fn missing_home_is_an_error() {
    let r = resolve_install_dir(
        HostPlatform::Linux,
        None,
        None,
        Some("/from/marker".to_string()),
        None,
    );
    assert_eq!(r, Err(LocateError::MissingHomeVariable));
}

#[test]
fn missing_program_files_is_an_error() {
    let r = resolve_install_dir(
        HostPlatform::Windows,
        None,
        Some("C:\\Users\\u\\AppData\\Roaming".to_string()),
        None,
        None,
    );
    assert_eq!(r, Err(LocateError::MissingProgramFiles));
}

#[test]
fn marker_file_paths_per_platform() {
    assert_eq!(
        marker_file_path(HostPlatform::Linux, "/home/u"),
        "/home/u/.binaryninja/lastrun"
    );
    assert_eq!(
        marker_file_path(HostPlatform::MacOs, "/Users/u"),
        "/Users/u/Library/Application Support/Binary Ninja/lastrun"
    );
    assert_eq!(
        marker_file_path(HostPlatform::Windows, "C:\\Users\\u\\AppData\\Roaming"),
        "C:\\Users\\u\\AppData\\Roaming\\Binary Ninja\\lastrun"
    );
}

#[test]
fn home_variable_per_platform() {
    assert_eq!(HostPlatform::Linux.home_variable(), "HOME");
    assert_eq!(HostPlatform::MacOs.home_variable(), "HOME");
    assert_eq!(HostPlatform::Windows.home_variable(), "APPDATA");
}

#[test]
fn first_line_stops_at_newline() {
    assert_eq!(first_line("ab\ncd"), "ab");
    assert_eq!(first_line("no newline"), "no newline");
    assert_eq!(first_line("\nrest"), "");
    assert_eq!(first_line(""), "");
}

#[test]
fn trim_removes_unicode_white_space() {
    assert_eq!(trim_spaces(" \t path \r"), "path");
    assert_eq!(trim_spaces(""), "");
    assert_eq!(trim_spaces(" \u{00A0}\u{3000}"), "");
    assert_eq!(trim_spaces("\u{2028}x\u{205F}"), "x");
    assert_eq!(trim_spaces("a b"), "a b");
}

#[test]
fn marker_install_dir_takes_first_trimmed_line() {
    assert_eq!(marker_install_dir("  /p/q\r\nother\n"), "/p/q");
    assert_eq!(marker_install_dir("plain"), "plain");
    assert_eq!(marker_install_dir("   \n/second"), "");
}
