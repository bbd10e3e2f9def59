use silicon_dirs::path::{is_absolute, join, Platform};

#[test]
fn join_puts_one_separator_between_base_and_name() {
    assert_eq!(join(Platform::Unix, "/home/alice/.cache", "silicon"), "/home/alice/.cache/silicon");
    assert_eq!(join(Platform::MacOs, "/Users/Alice", ".config"), "/Users/Alice/.config");
}

#[test]
fn join_adds_no_separator_after_a_trailing_one() {
    assert_eq!(join(Platform::Unix, "/custom/cfg/", "silicon"), "/custom/cfg/silicon");
    assert_eq!(join(Platform::MacOs, "/", "silicon"), "/silicon");
}

#[test]
fn join_to_the_empty_base_is_the_name() {
    assert_eq!(join(Platform::Unix, "", "silicon"), "silicon");
    assert_eq!(join(Platform::MacOs, "", ".cache"), ".cache");
    assert_eq!(join(Platform::Windows, "", "silicon"), "silicon");
}

#[test]
fn join_of_an_empty_name_keeps_the_base_and_its_separator() {
    assert_eq!(join(Platform::Unix, "/var", ""), "/var/");
    assert_eq!(join(Platform::Unix, "/var/", ""), "/var/");
    assert_eq!(join(Platform::Unix, "", ""), "");
}

#[test]
fn join_on_windows_uses_the_backslash() {
    assert_eq!(
        join(Platform::Windows, "C:\\Users\\Alice\\AppData\\Local", "silicon"),
        "C:\\Users\\Alice\\AppData\\Local\\silicon"
    );
    assert_eq!(
        join(Platform::Windows, "\\\\server\\share\\profile", "silicon"),
        "\\\\server\\share\\profile\\silicon"
    );
}

#[test]
fn join_on_windows_takes_both_separators_as_trailing() {
    assert_eq!(join(Platform::Windows, "C:\\cache\\", "silicon"), "C:\\cache\\silicon");
    assert_eq!(join(Platform::Windows, "C:/cache/", "silicon"), "C:/cache/silicon");
}

#[test]
fn backslash_is_no_separator_off_windows() {
    assert_eq!(join(Platform::Unix, "/odd\\", "silicon"), "/odd\\/silicon");
    assert_eq!(join(Platform::MacOs, "/odd\\", "silicon"), "/odd\\/silicon");
}

#[test]
fn join_counts_characters_not_bytes() {
    assert_eq!(join(Platform::Unix, "/home/zoë", "silicon"), "/home/zoë/silicon");
    assert_eq!(join(Platform::Unix, "/home/日本", "silicon"), "/home/日本/silicon");
}

#[test]
fn separators_by_platform() {
    assert!(Platform::Unix.is_separator('/'));
    assert!(Platform::MacOs.is_separator('/'));
    assert!(Platform::Windows.is_separator('/'));
    assert!(Platform::Windows.is_separator('\\'));
    assert!(!Platform::Unix.is_separator('\\'));
    assert!(!Platform::MacOs.is_separator('\\'));
    assert!(!Platform::Windows.is_separator(':'));
    assert_eq!(Platform::Unix.separator(), "/");
    assert_eq!(Platform::MacOs.separator(), "/");
    assert_eq!(Platform::Windows.separator(), "\\");
}

#[test]
fn absolute_paths_begin_with_a_slash() {
    assert!(is_absolute("/"));
    assert!(is_absolute("/custom/cfg"));
    assert!(is_absolute("//double"));
}

#[test]
fn relative_paths_are_not_absolute() {
    assert!(!is_absolute(""));
    assert!(!is_absolute("relative/cache"));
    assert!(!is_absolute("./cache"));
    assert!(!is_absolute("../cache"));
    assert!(!is_absolute("~/.cache"));
    assert!(!is_absolute(" /leading-space"));
    assert!(!is_absolute("C:\\cache"));
}

#[test]
fn a_name_joined_to_an_absolute_base_is_absolute() {
    for base in ["/", "/a", "/a/", "/a/b"] {
        for platform in [Platform::Unix, Platform::MacOs, Platform::Windows] {
            let path = join(platform, base, "silicon");
            assert!(is_absolute(&path));
            assert!(path.starts_with(base));
            assert!(path.ends_with("silicon"));
        }
    }
}
