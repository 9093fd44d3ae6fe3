use openwarp::markdown::{
    eq_ignore_ascii_case, extension_of_file_name, is_markdown_file, is_markdown_file_name, lang,
};

#[test]
fn markdown_detection_matches_the_expected_cases() {
    let cases = [
        ("/home/user/notes/README.md", true),
        ("/home/user/doc.markdown", true),
        ("/srv/CHANGELOG", true),
        ("/home/user/src/main.rs", false),
        ("/home/user/data.json", false),
    ];
    for (p, want) in cases {
        assert_eq!(is_markdown_file(&lang(p)), want, "{p}");
    }
}

#[test]
fn lang_keeps_the_path() {
    assert_eq!(lang("/srv/CHANGELOG"), "/srv/CHANGELOG");
}

#[test]
fn markdown_detection_ignores_ascii_case() {
    assert!(is_markdown_file("/a/NOTES.MD"));
    assert!(is_markdown_file("/a/Guide.MarkDown"));
    assert!(is_markdown_file("readme"));
    assert!(is_markdown_file("/x/License"));
    assert!(!is_markdown_file("/x/LICENSE.txt"));
    assert!(!is_markdown_file("/x/README.rs"));
    assert!(!is_markdown_file("/x/CONTRIBUTING"));
}

#[test]
fn markdown_detection_without_a_file_name() {
    assert!(!is_markdown_file("/"));
    assert!(!is_markdown_file("/docs/.."));
    assert!(!is_markdown_file(""));
    assert!(!is_markdown_file_name(None));
    assert!(is_markdown_file_name(Some("CHANGELOG")));
    assert!(!is_markdown_file_name(Some(".md")));
}

#[test]
fn extension_follows_the_last_dot() {
    assert_eq!(extension_of_file_name("a.tar.gz"), Some("gz"));
    assert_eq!(extension_of_file_name("README"), None);
    assert_eq!(extension_of_file_name(".bashrc"), None);
    assert_eq!(extension_of_file_name("notes."), Some(""));
    assert_eq!(extension_of_file_name(".a.md"), Some("md"));
}

#[test]
fn ascii_case_insensitive_equality() {
    assert!(eq_ignore_ascii_case("README", "readme"));
    assert!(eq_ignore_ascii_case("", ""));
    assert!(!eq_ignore_ascii_case("md", "mdx"));
    assert!(!eq_ignore_ascii_case("É", "é"));
    assert!(eq_ignore_ascii_case("é", "é"));
}

#[test]
fn markdown_detection_of_nested_paths() {
    assert!(is_markdown_file("/x/README"));
    assert!(is_markdown_file("/x/readme"));
    assert!(is_markdown_file("LICENSE"));
    assert!(is_markdown_file("Changelog"));
    assert!(is_markdown_file("/x/y.mD"));
    assert!(!is_markdown_file("/x/README.txt"));
    assert!(!is_markdown_file("/x/CHANGELOG.old"));
    assert!(!is_markdown_file("/x/.md"));
    assert!(!is_markdown_file("/x/READMEs"));
}
