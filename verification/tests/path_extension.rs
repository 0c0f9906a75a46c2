use session_slots::paths::{default_save_extension, path_has_lz4_extension};

#[test]
fn lz4_style_extensions_are_recognised() {
    assert!(path_has_lz4_extension("profile/sessionstore.jsonlz4"));
    assert!(path_has_lz4_extension("sessionstore-backups/recovery.baklz4"));
    assert!(path_has_lz4_extension("archive.lz4"));
    assert!(path_has_lz4_extension(r"C:\Users\me\session.jsonlz4"));
}

#[test]
fn other_extensions_are_not_compressed() {
    assert!(!path_has_lz4_extension("profile/sessionstore.js"));
    assert!(!path_has_lz4_extension("notes/session.json"));
    assert!(!path_has_lz4_extension("archive.lz4.txt"));
    assert!(!path_has_lz4_extension("no_extension"));
    assert!(!path_has_lz4_extension(""));
}

/// A dot that starts the file name is not an extension separator, and a
/// separator ends the file name.
#[test]
fn extension_edges() {
    assert!(!path_has_lz4_extension(".jsonlz4"));
    assert!(!path_has_lz4_extension("dir/.jsonlz4"));
    assert!(path_has_lz4_extension("dir/a.jsonlz4"));
    assert!(!path_has_lz4_extension("dir.lz4/file"));
    assert!(!path_has_lz4_extension("trailing.lz4/"));
    assert!(path_has_lz4_extension("a.b.jsonlz4"));
}

#[test]
fn save_extension_defaulting() {
    assert_eq!(default_save_extension("out/links", "txt"), "out/links.txt");
    assert_eq!(default_save_extension("out/links.html", "txt"), "out/links.html");
    assert_eq!(default_save_extension("out.dir/links", "pdf"), "out.dir/links.pdf");
    assert_eq!(default_save_extension(".hidden", "txt"), ".hidden.txt");
}
