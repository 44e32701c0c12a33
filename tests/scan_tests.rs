use picture_index::scan::{is_ignored, is_image_file, is_supported_extension, select_candidates, WalkEntry};

#[test]
fn image_extensions_case_insensitive() {
    assert!(is_image_file("/a/x.png"));
    assert!(is_image_file("/a/x.PNG"));
    assert!(is_image_file("/a/x.Jpeg"));
    assert!(is_image_file("x.jpg"));
    assert!(!is_image_file("/a/x.gif"));
    assert!(!is_image_file("/a/png"));
    assert!(!is_image_file("/a/x.png.txt"));
}

#[test]
fn supported_extension_set() {
    assert!(is_supported_extension("jpg"));
    assert!(is_supported_extension("jpeg"));
    assert!(is_supported_extension("png"));
    assert!(!is_supported_extension("PNG"));
    assert!(!is_supported_extension(""));
}

#[test]
fn ignore_is_a_component_prefix() {
    let ignored = vec!["/a/b".to_string()];
    assert!(is_ignored("/a/b/c.png", &ignored));
    assert!(is_ignored("/a/b", &ignored));
    assert!(!is_ignored("/a/x.png", &ignored));
    assert!(!is_ignored("/a/bc/x.png", &ignored));
    assert!(!is_ignored("/a/b/c.png", &vec![]));
}

#[test]
fn ignored_subtree_excluded_from_scan() {
    let e = |p: &str, f: bool| WalkEntry { path: p.to_string(), is_file: f };
    let entries = vec![
        e("/a", false),
        e("/a/b", false),
        e("/a/b/c.png", true),
        e("/a/x.png", true),
        e("/a/notes.txt", true),
        e("/a/dir.png", false),
        e("/a/y.JPG", true),
    ];
    let got = select_candidates(&entries, &vec!["/a/b".to_string()]);
    assert_eq!(got, vec!["/a/x.png".to_string(), "/a/y.JPG".to_string()]);
    let all = select_candidates(&entries, &vec![]);
    assert_eq!(all, vec!["/a/b/c.png".to_string(), "/a/x.png".to_string(), "/a/y.JPG".to_string()]);
}
