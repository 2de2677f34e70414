use xrpicker::paths::{
    dir_prefix, file_name, has_text_form, is_absolute, parent_dir, same_directory, separates,
    sibling, PathSimplifier, PathStyle,
};
use xrpicker::text::{
    char_at, chars_of, contains_char, contains_text, decimal_text, join_text, starts_with_text,
};

#[test]
fn chars_and_searches() {
    assert_eq!(chars_of("a\u{e9}b"), vec!['a', '\u{e9}', 'b']);
    assert!(contains_char("a/b", '/'));
    assert!(!contains_char("ab", '/'));
    assert_eq!(char_at("ab", 1), Some('b'));
    assert_eq!(char_at("ab", 2), None);
    assert!(contains_text("libmonado.so", "monado"));
    assert!(contains_text("monado", "monado"));
    assert!(contains_text("anything", ""));
    assert!(!contains_text("mona", "monado"));
    assert!(!contains_text("libmonadX.so", "monado"));
    assert!(starts_with_text("/home/user/x", "/home/user"));
    assert!(!starts_with_text("/hom", "/home"));
    assert_eq!(join_text("ab", "cd"), "abcd");
}

#[test]
fn decimal_numerals() {
    assert_eq!(decimal_text(0), "0");
    assert_eq!(decimal_text(7), "7");
    assert_eq!(decimal_text(10), "10");
    assert_eq!(decimal_text(1700000000), "1700000000");
    assert_eq!(decimal_text(u64::MAX), "18446744073709551615");
}

#[test]
fn unix_path_parts() {
    let style = PathStyle::Unix;
    assert_eq!(file_name(style, "/etc/openxr/1/foo.json"), "foo.json");
    assert_eq!(file_name(style, "foo.json"), "foo.json");
    assert_eq!(file_name(style, "/etc/"), "");
    assert_eq!(dir_prefix(style, "/etc/openxr/1/foo.json"), "/etc/openxr/1/");
    assert_eq!(dir_prefix(style, "foo.json"), "");
    assert_eq!(
        parent_dir(style, "/etc/openxr/1/foo.json"),
        Some("/etc/openxr/1".to_string())
    );
    assert_eq!(parent_dir(style, "/foo.json"), Some("/".to_string()));
    assert_eq!(parent_dir(style, "foo.json"), Some("".to_string()));
    assert_eq!(parent_dir(style, ""), None);
    // a backslash is part of a name on Unix
    assert_eq!(file_name(style, "/a/b\\c"), "b\\c");
    assert!(separates(style, '/'));
    assert!(!separates(style, '\\'));
}

#[test]
fn windows_path_parts() {
    let style = PathStyle::Windows;
    assert_eq!(file_name(style, "C:\\A\\rt.json"), "rt.json");
    assert_eq!(parent_dir(style, "C:\\A\\rt.json"), Some("C:\\A".to_string()));
    assert_eq!(parent_dir(style, "C:/A/rt.json"), Some("C:/A".to_string()));
    assert_eq!(
        parent_dir(style, "C:\\Windows\\System32"),
        Some("C:\\Windows".to_string())
    );
    assert!(separates(style, '/'));
    assert!(separates(style, '\\'));
    assert!(!separates(style, ':'));
}

#[test]
fn replacement_character_marks_missing_text() {
    assert!(has_text_form("/etc/openxr/1/monado.json"));
    assert!(has_text_form(""));
    assert!(!has_text_form("/etc/openxr/1/mon\u{fffd}do.json"));
}

#[test]
fn absolute_paths() {
    assert!(is_absolute(PathStyle::Unix, "/usr/lib/foo.so"));
    assert!(!is_absolute(PathStyle::Unix, "usr/lib/foo.so"));
    assert!(!is_absolute(PathStyle::Unix, ""));
    assert!(!is_absolute(PathStyle::Unix, "C:\\foo"));
    assert!(is_absolute(PathStyle::Windows, "C:\\foo\\bar.dll"));
    assert!(is_absolute(PathStyle::Windows, "C:/foo/bar.dll"));
    assert!(is_absolute(PathStyle::Windows, "\\\\server\\share\\bar.dll"));
    assert!(!is_absolute(PathStyle::Windows, "\\foo\\bar.dll"));
    assert!(!is_absolute(PathStyle::Windows, "C:foo"));
    assert!(!is_absolute(PathStyle::Windows, "foo\\bar.dll"));
}

#[test]
fn home_directory_is_abbreviated() {
    let simplifier = PathSimplifier::new(Some("/home/user".to_string()), PathStyle::Unix);
    assert_eq!(simplifier.simplify("/home/user/.config/x.json"), "~/.config/x.json");
    assert_eq!(simplifier.simplify("/home/user"), "~");
    // only whole components match
    assert_eq!(simplifier.simplify("/home/username/x.json"), "/home/username/x.json");
    assert_eq!(simplifier.simplify("/etc/x.json"), "/etc/x.json");
    assert_eq!(simplifier.simplify(""), "");
}

#[test]
fn home_directory_with_trailing_separator_is_abbreviated() {
    let simplifier = PathSimplifier::new(Some("/home/u/".to_string()), PathStyle::Unix);
    assert_eq!(simplifier.simplify("/home/u/x"), "~/x");
    assert_eq!(simplifier.simplify("/home/u"), "~");
    assert_eq!(simplifier.simplify("/home/user2/a.json"), "/home/user2/a.json");
    let doubled = PathSimplifier::new(Some("/home/u//".to_string()), PathStyle::Unix);
    assert_eq!(doubled.simplify("/home/u/.config/a.json"), "~/.config/a.json");
}

#[test]
fn root_as_home_directory_holds_every_absolute_path() {
    let simplifier = PathSimplifier::new(Some("/".to_string()), PathStyle::Unix);
    assert_eq!(simplifier.simplify("/etc/x"), "~/etc/x");
    assert_eq!(simplifier.simplify("etc/x"), "etc/x");
    assert_eq!(simplifier.simplify(""), "");
    let drive = PathSimplifier::new(Some("C:\\".to_string()), PathStyle::Windows);
    assert_eq!(drive.simplify("C:\\Users\\me"), "~\\Users\\me");
}

#[test]
fn directories_compare_whichever_separators_spell_them() {
    let style = PathStyle::Windows;
    assert!(same_directory(style, "C:\\A\\B", "C:/A/B"));
    assert!(same_directory(style, "C:\\A", "C:\\A"));
    assert!(!same_directory(style, "C:\\A", "C:\\B"));
    assert!(!same_directory(style, "C:\\A", "C:\\A\\"));
    assert!(!same_directory(style, "C:\\a", "C:\\A"));
    assert!(!same_directory(PathStyle::Unix, "/a\\b", "/a/b"));
    assert!(same_directory(PathStyle::Unix, "", ""));
}

#[test]
fn names_are_joined_to_the_directory_of_a_file() {
    let unix = PathStyle::Unix;
    assert_eq!(sibling(unix, "/etc/xr/a.json", "lib/rt.so"), "/etc/xr/lib/rt.so");
    assert_eq!(sibling(unix, "/etc/xr/a.json", "/usr/lib/rt.so"), "/usr/lib/rt.so");
    assert_eq!(
        sibling(unix, "/etc/xr/a.json", "C:\\rt\\rt.dll"),
        "/etc/xr/C:\\rt\\rt.dll"
    );
    assert_eq!(sibling(unix, "a.json", "rt.so"), "rt.so");
    let windows = PathStyle::Windows;
    assert_eq!(sibling(windows, "C:\\A\\a.json", "bin\\rt.dll"), "C:\\A\\bin\\rt.dll");
    assert_eq!(sibling(windows, "C:\\A\\a.json", "D:\\rt\\rt.dll"), "D:\\rt\\rt.dll");
    assert_eq!(sibling(windows, "C:\\A\\a.json", "D:rt.dll"), "D:rt.dll");
    assert_eq!(sibling(windows, "C:\\A\\a.json", "\\rt\\rt.dll"), "C:\\rt\\rt.dll");
    assert_eq!(
        sibling(windows, "C:\\A\\a.json", "\\\\srv\\share\\rt.dll"),
        "\\\\srv\\share\\rt.dll"
    );
    assert_eq!(sibling(windows, "C:\\A\\a.json", "/usr/lib/rt.so"), "C:/usr/lib/rt.so");
}

#[test]
fn without_home_directory_paths_stay() {
    let none = PathSimplifier::new(None, PathStyle::Unix);
    assert_eq!(none.simplify("/home/user/x.json"), "/home/user/x.json");
    let empty = PathSimplifier::new(Some(String::new()), PathStyle::Unix);
    assert_eq!(empty.simplify("/home/user/x.json"), "/home/user/x.json");
}

#[test]
fn windows_home_directory_is_abbreviated() {
    let simplifier = PathSimplifier::new(Some("C:\\Users\\me".to_string()), PathStyle::Windows);
    assert_eq!(simplifier.simplify("C:\\Users\\me\\rt\\rt.json"), "~\\rt\\rt.json");
    assert_eq!(simplifier.simplify("C:\\Users\\meme\\rt.json"), "C:\\Users\\meme\\rt.json");
}
