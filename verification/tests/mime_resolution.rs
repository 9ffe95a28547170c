//! The MIME resolver: extension extraction and the content-type table.

use upload_facade::mime::file_extension;
use upload_facade::mime::mime_for_extension;
use upload_facade::mime::resolve_content_type;
use upload_facade::mime::str_eq;

#[test]
fn known_extensions_resolve() {
    assert_eq!(resolve_content_type("a.txt"), Some("text/plain".to_string()));
    assert_eq!(resolve_content_type("page.html"), Some("text/html".to_string()));
    assert_eq!(resolve_content_type("data.json"), Some("application/json".to_string()));
    assert_eq!(resolve_content_type("img.png"), Some("image/png".to_string()));
    assert_eq!(resolve_content_type("doc.pdf"), Some("application/pdf".to_string()));
}

#[test]
fn last_dot_wins() {
    assert_eq!(resolve_content_type("archive.tar.gz"), Some("application/gzip".to_string()));
    assert_eq!(file_extension("a.b.c"), Some("c"));
}

#[test]
fn unknown_extension_falls_back() {
    assert_eq!(
        resolve_content_type("file.xyz"),
        Some("application/octet-stream".to_string())
    );
    // the table is case-sensitive: an upper-case extension is unknown
    assert_eq!(
        resolve_content_type("photo.JPG"),
        Some("application/octet-stream".to_string())
    );
    // a leading dot makes the whole rest the extension
    assert_eq!(
        resolve_content_type(".gitignore"),
        Some("application/octet-stream".to_string())
    );
}

#[test]
fn missing_extension_has_no_resolution() {
    assert_eq!(resolve_content_type("README"), None);
    assert_eq!(resolve_content_type("name."), None);
    assert_eq!(resolve_content_type(""), None);
    assert_eq!(file_extension("README"), None);
    assert_eq!(file_extension("name."), None);
}

#[test]
fn table_lookup() {
    assert_eq!(mime_for_extension("txt"), "text/plain");
    assert_eq!(mime_for_extension("htm"), "text/html");
    assert_eq!(mime_for_extension("svg"), "image/svg+xml");
    assert_eq!(mime_for_extension("mp4"), "video/mp4");
    assert_eq!(mime_for_extension("nope"), "application/octet-stream");
}

#[test]
fn string_equality() {
    assert!(str_eq("", ""));
    assert!(str_eq("abc", "abc"));
    assert!(!str_eq("abc", "abd"));
    assert!(!str_eq("abc", "ab"));
    assert!(!str_eq("ab", "abc"));
}
