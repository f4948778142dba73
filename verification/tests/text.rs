use arweave_host::mime::{folder_media_type_of, media_type_of, path_extension};
use arweave_host::text::{chars_of, contains_text, decimal_text, read_header, same_text};
use std::path::Path;

fn extension(path: &str) -> Option<String> {
    path_extension(path).map(|chars| chars.into_iter().collect())
}

#[test]
fn extensions_are_those_of_std() {
    let paths = [
        "", ".", "..", "...", "/", "//", "a", "a.html", ".html", "..html", "a.", "a..", "a.b.c",
        "dir/a.css", "dir.d/a", "dir.d/.js", "a.html/", "a.html//", "a.html/.", "a.html/./", "a.html/..",
        "./a.js", "./.", "../a.png", "/abs/x.svg", "a.html/b", "über/größe.ico", "x.HTML", "./",
        "a/b/c.tar.gz", "..a", "...a", "a/.../b.jpg", "/.", "/..", "/...", "a/..b.jpeg",
    ];
    for path in paths {
        let expected = Path::new(path).extension().and_then(|e| e.to_str()).map(String::from);
        assert_eq!(extension(path), expected, "{path:?}");
    }
}

#[test]
fn media_types_of_a_site() {
    assert_eq!(media_type_of("index.html"), "text/html");
    assert_eq!(media_type_of("css/site.css"), "text/css");
    assert_eq!(media_type_of("app.js"), "application/javascript");
    assert_eq!(media_type_of("a.png"), "image/png");
    assert_eq!(media_type_of("a.jpg"), "image/jpeg");
    assert_eq!(media_type_of("a.jpeg"), "image/jpeg");
    assert_eq!(media_type_of("a.svg"), "image/svg+xml");
    assert_eq!(media_type_of("favicon.ico"), "image/x-icon");
    assert_eq!(media_type_of("a.txt"), "application/octet-stream");
    assert_eq!(media_type_of("index.HTML"), "application/octet-stream");
    assert_eq!(media_type_of("html"), "application/octet-stream");
    assert_eq!(media_type_of(".html"), "application/octet-stream");
}

#[test]
fn media_types_of_a_folder() {
    assert_eq!(folder_media_type_of("index.html"), "text/html");
    assert_eq!(folder_media_type_of("app.js"), "application/javascript");
    assert_eq!(folder_media_type_of("a.b.css"), "text/css");
    assert_eq!(folder_media_type_of("a.png"), "application/octet-stream");
    assert_eq!(folder_media_type_of("html"), "text/html");
    assert_eq!(folder_media_type_of(".js"), "application/javascript");
    assert_eq!(folder_media_type_of("css."), "application/octet-stream");
    assert_eq!(folder_media_type_of("dir.css/x"), "application/octet-stream");
}

#[test]
fn extension_in_any_directory() {
    for directory in ["", "/", "a/", "a/b.c/", "a/../"] {
        for stem in ["x", "x.y", "..", ".x"] {
            for ext in ["html", "", "ü"] {
                assert_eq!(extension(&format!("{directory}{stem}.{ext}")), Some(ext.to_string()));
            }
        }
    }
}

#[test]
fn numbers_in_decimal() {
    for n in [0, 1, 9, 10, 11, 99, 100, 12345, u64::MAX] {
        assert_eq!(decimal_text(n), n.to_string());
    }
}

#[test]
fn searching_text() {
    let text = chars_of("gzip, deflate, br");
    assert!(contains_text(&text, "br"));
    assert!(contains_text(&text, "gzip"));
    assert!(contains_text(&text, ""));
    assert!(!contains_text(&text, "brotli"));
    assert!(!contains_text(&chars_of("b"), "br"));
    assert!(!contains_text(&chars_of("bbb"), "br"));
    assert!(contains_text(&chars_of("bbr"), "br"));
    assert!(contains_text(&chars_of(""), ""));
}

#[test]
fn comparing_text() {
    assert!(same_text("größe", "größe"));
    assert!(!same_text("a", "b"));
    assert!(!same_text("a", "ab"));
    assert!(same_text("", ""));
}

#[test]
fn header_values_as_text() {
    for byte in 0..=255u8 {
        let bytes = [b'a', byte, b'z'];
        let expected = http::HeaderValue::from_bytes(&bytes)
            .ok()
            .and_then(|v| v.to_str().ok().map(String::from));
        let text = read_header(&bytes).map(|chars| chars.into_iter().collect::<String>());
        assert_eq!(text, expected, "{byte}");
    }
    assert_eq!(read_header(b""), Some(vec![]));
}
