use black_hole::content_type::{content_type_for, content_type_for_extension};

#[test]
fn known_extensions() {
    assert_eq!(content_type_for("a/b.css"), "text/css");
    assert_eq!(content_type_for("foo/bar.js"), "application/javascript");
    assert_eq!(content_type_for("x.json"), "application/json");
    assert_eq!(content_type_for("index.html"), "text/html");
    assert_eq!(content_type_for("i.png"), "image/png");
    assert_eq!(content_type_for("i.jpg"), "image/jpeg");
    assert_eq!(content_type_for("i.jpeg"), "image/jpeg");
    assert_eq!(content_type_for("i.gif"), "image/gif");
    assert_eq!(content_type_for("i.svg"), "image/svg+xml");
}

#[test]
fn extension_case_is_ignored() {
    assert_eq!(content_type_for("A/B.JS"), "application/javascript");
    assert_eq!(content_type_for("logo.Svg"), "image/svg+xml");
}

#[test]
fn unknown_or_absent_extension_is_binary() {
    assert_eq!(content_type_for("README"), "application/octet-stream");
    assert_eq!(content_type_for("a.tar.gz"), "application/octet-stream");
    assert_eq!(content_type_for(".css"), "application/octet-stream");
    assert_eq!(content_type_for("dir.js/file"), "application/octet-stream");
    assert_eq!(content_type_for("a."), "application/octet-stream");
    assert_eq!(content_type_for(""), "application/octet-stream");
    assert_eq!(content_type_for("a/.."), "application/octet-stream");
}

#[test]
fn file_name_ignores_trailing_separator_and_dot() {
    assert_eq!(content_type_for("a/b.css/"), "text/css");
    assert_eq!(content_type_for("a/b.png/."), "image/png");
    assert_eq!(content_type_for("x.v2/lib.min.js"), "application/javascript");
}

#[test]
fn mime_table_by_extension() {
    assert_eq!(content_type_for_extension(Some("js")), "application/javascript");
    assert_eq!(content_type_for_extension(Some("JPEG")), "image/jpeg");
    assert_eq!(content_type_for_extension(Some("wasm")), "application/octet-stream");
    assert_eq!(content_type_for_extension(Some("")), "application/octet-stream");
    assert_eq!(content_type_for_extension(None), "application/octet-stream");
}
