use arweave_host::archive::extract_zip;
use arweave_host::clock::{LocalTime, Timestamp};
use arweave_host::serve::{find_file, serve_file};
use arweave_host::site::{Site, StoredFile};
use arweave_host::update::{Step, UpdateLog, UpdateRun};
use arweave_host::visits::VisitCounter;
use std::io::{Cursor, Read, Write};
use zip::write::SimpleFileOptions;
use zip::{CompressionMethod, ZipWriter};

fn stored() -> SimpleFileOptions {
    SimpleFileOptions::default().compression_method(CompressionMethod::Stored)
}

fn archive(files: &[(&str, &[u8])], options: SimpleFileOptions) -> Vec<u8> {
    let mut writer = ZipWriter::new(Cursor::new(Vec::new()));
    for (name, content) in files {
        writer.start_file(*name, options).unwrap();
        writer.write_all(content).unwrap();
    }
    writer.finish().unwrap().into_inner()
}

fn unbrotli(stream: &[u8]) -> Vec<u8> {
    let mut content = Vec::new();
    brotli::Decompressor::new(stream, 4096).read_to_end(&mut content).unwrap();
    content
}

fn gunzip(stream: &[u8]) -> Vec<u8> {
    let mut content = Vec::new();
    flate2::read::GzDecoder::new(stream).read_to_end(&mut content).unwrap();
    content
}

fn page() -> Vec<u8> {
    b"<html>".iter().cycle().take(30000).copied().collect()
}

#[test]
fn files_of_an_archive() {
    let content = page();
    let data = archive(
        &[("index.html", &content), ("img/logo.svg", b"<svg/>"), ("empty.css", b"")],
        SimpleFileOptions::default(),
    );
    let site = extract_zip(&data).ok().unwrap();
    for (path, expected, mime) in [
        ("index.html", content.as_slice(), "text/html"),
        ("img/logo.svg", b"<svg/>".as_slice(), "image/svg+xml"),
        ("empty.css", b"".as_slice(), "text/css"),
    ] {
        let file = site.get(path).unwrap();
        assert_eq!(file.content, expected);
        assert_eq!(file.mime, mime);
        assert_eq!(unbrotli(file.brotli.as_ref().unwrap()), expected);
        assert_eq!(gunzip(file.gzip.as_ref().unwrap()), expected);
    }
    assert!(!site.contains_key("logo.svg"));
    assert!(site.get("").is_none());
}

#[test]
fn gzip_forms_are_those_of_flate2() {
    let content = page();
    let data = archive(&[("index.html", &content)], SimpleFileOptions::default());
    let site = extract_zip(&data).ok().unwrap();
    let file = site.get("index.html").unwrap();
    let mut writer = flate2::write::GzEncoder::new(Vec::new(), flate2::Compression::default());
    writer.write_all(&content).unwrap();
    assert_eq!(file.gzip.as_ref().unwrap(), &writer.finish().unwrap());
}

/// Bytes that hardly compress.
fn noise(len: usize) -> Vec<u8> {
    let mut state: u64 = 0x9e3779b97f4a7c15;
    let mut bytes = Vec::new();
    for _ in 0..len {
        state ^= state << 13;
        state ^= state >> 7;
        state ^= state << 17;
        bytes.push((state >> 32) as u8);
    }
    bytes
}

#[test]
fn both_forms_decode_to_the_content() {
    let mut mixed = noise(100_000);
    mixed.extend(page());
    mixed.extend((0..=255u8).cycle().take(70_000));
    for content in [vec![], vec![0], page(), noise(1), noise(5_000_000), vec![7; 5_000_000], mixed] {
        let data = archive(&[("a.js", &content)], stored());
        let site = extract_zip(&data).ok().unwrap();
        let file = site.get("a.js").unwrap();
        assert!(unbrotli(file.brotli.as_ref().unwrap()) == content);
        assert!(gunzip(file.gzip.as_ref().unwrap()) == content);
    }
}

#[test]
fn one_archive_unpacks_alike() {
    let data = archive(&[("index.html", &page()), ("a.css", b"a")], stored());
    let one = extract_zip(&data).ok().unwrap();
    let other = extract_zip(&data).ok().unwrap();
    for path in ["index.html", "a.css"] {
        let (file, again) = (one.get(path).unwrap(), other.get(path).unwrap());
        assert_eq!(file.content, again.content);
        assert_eq!(file.mime, again.mime);
        assert_eq!(file.gzip, again.gzip);
        assert_eq!(
            unbrotli(file.brotli.as_ref().unwrap()),
            unbrotli(again.brotli.as_ref().unwrap())
        );
    }
    assert!(!one.contains_key("b") && !other.contains_key("b"));
}

#[test]
fn only_regular_files_are_kept() {
    let mut writer = ZipWriter::new(Cursor::new(Vec::new()));
    writer.add_directory("img/", SimpleFileOptions::default()).unwrap();
    writer.add_symlink("link.html", "index.html", SimpleFileOptions::default()).unwrap();
    writer.start_file("index.html", SimpleFileOptions::default()).unwrap();
    writer.write_all(b"hi").unwrap();
    let data = writer.finish().unwrap().into_inner();
    let site = extract_zip(&data).ok().unwrap();
    assert!(site.contains_key("index.html"));
    assert!(!site.contains_key("img/"));
    assert!(!site.contains_key("img"));
    assert!(!site.contains_key("link.html"));
}

#[test]
fn the_last_of_two_entries_with_one_name() {
    let mut data = archive(&[("a.html", b"first"), ("b.html", b"last")], stored());
    for at in 0..data.len() - 6 {
        if &data[at..at + 6] == b"b.html" {
            data[at] = b'a';
        }
    }
    let site = extract_zip(&data).ok().unwrap();
    assert_eq!(find_file(&site, "a.html", None).body, b"last");
    assert!(!site.contains_key("b.html"));
}

#[test]
fn an_empty_archive_has_no_files() {
    let site = extract_zip(&archive(&[], stored())).ok().unwrap();
    assert!(!site.contains_key("index.html"));
}

#[test]
fn no_archive_at_all() {
    let expected = zip::ZipArchive::new(Cursor::new(b"nonsense".as_slice())).unwrap_err().to_string();
    assert_eq!(extract_zip(b"nonsense").err().unwrap(), expected);
}

#[test]
fn a_damaged_entry_fails_the_archive() {
    let mut data = archive(&[("good.html", b"fine"), ("bad.html", b"UNDAMAGED")], stored());
    let at = data.windows(9).position(|w| w == b"UNDAMAGED").unwrap();
    data[at] = b'X';
    let mut reader = zip::ZipArchive::new(Cursor::new(data.as_slice())).unwrap();
    let mut content = Vec::new();
    let expected =
        reader.by_index(1).unwrap().read_to_end(&mut content).unwrap_err().to_string();
    assert_eq!(extract_zip(&data).err().unwrap(), expected);
}

#[test]
fn an_entry_that_cannot_be_opened_fails_the_archive() {
    let mut data = archive(&[("index.html", b"fine")], stored());
    // The first local header follows no longer its signature.
    data[0] = b'X';
    let mut reader = zip::ZipArchive::new(Cursor::new(data.as_slice())).unwrap();
    let expected = reader.by_index(0).map(|_| ()).unwrap_err().to_string();
    assert_eq!(extract_zip(&data).err().unwrap(), expected);
}

fn sample() -> Site {
    let mut site = Site::new();
    site.store_file("index.html".to_string(), b"plain".to_vec(), b"B".to_vec(), b"G".to_vec());
    site.insert(
        "raw".to_string(),
        StoredFile {
            content: b"raw".to_vec(),
            mime: "application/octet-stream".to_string(),
            brotli: None,
            gzip: Some(b"Z".to_vec()),
        },
    );
    site
}

#[test]
fn encodings_are_negotiated() {
    let site = sample();
    for (accept, encoding, body) in [
        (None, None, "plain"),
        (Some("identity"), None, "plain"),
        (Some(""), None, "plain"),
        (Some("gzip"), Some("gzip"), "G"),
        (Some("br"), Some("br"), "B"),
        (Some("gzip, br"), Some("br"), "B"),
        (Some("brotli"), Some("br"), "B"),
        (Some("br;q=0, gzip"), Some("br"), "B"),
        (Some("BR, GZIP"), None, "plain"),
        (Some("gzip, \u{fc}"), None, "plain"),
    ] {
        let reply = find_file(&site, "index.html", accept.map(str::as_bytes));
        assert_eq!(reply.status, 200);
        assert_eq!(reply.content_type.as_deref(), Some("text/html"));
        assert_eq!(reply.content_encoding.as_deref(), encoding);
        assert_eq!(reply.location, None);
        assert_eq!(reply.body, body.as_bytes());
    }
}

#[test]
fn a_missing_form_is_passed_over() {
    let reply = find_file(&sample(), "raw", Some(b"br, gzip"));
    assert_eq!(reply.content_encoding.as_deref(), Some("gzip"));
    assert_eq!(reply.body, b"Z");
    let reply = find_file(&sample(), "raw", Some(b"br"));
    assert_eq!(reply.content_encoding, None);
    assert_eq!(reply.body, b"raw");
}

#[test]
fn a_path_without_a_file() {
    let reply = find_file(&sample(), "index.htm", Some(b"br"));
    assert_eq!(reply.status, 404);
    assert_eq!(reply.content_type, None);
    assert_eq!(reply.content_encoding, None);
    assert_eq!(reply.body, b"File not found");
}

#[test]
fn a_later_file_replaces_an_earlier() {
    let mut site = sample();
    site.store_file("index.html".to_string(), b"new".to_vec(), vec![], vec![]);
    assert_eq!(find_file(&site, "index.html", None).body, b"new");
}

#[test]
fn serving_counts_the_visit() {
    let time = LocalTime { secs: 86400 * 10, nanos: 0, offset: 0 };
    let next_day = LocalTime { secs: 86400 * 11, nanos: 0, offset: 0 };
    let mut visits = VisitCounter::new(time);
    let (reply, closed) = serve_file(&sample(), &mut visits, "index.html", time, Some(b"gzip"));
    assert_eq!((reply.status, reply.body.as_slice()), (200, b"G".as_slice()));
    assert_eq!(closed, None);
    let (reply, closed) = serve_file(&sample(), &mut visits, "nowhere", next_day, None);
    assert_eq!(reply.status, 404);
    let closed = closed.unwrap();
    assert_eq!((closed.date, closed.index_visits, closed.total_visits), (10, 1, 2));
    assert_eq!(visits.total_visits(), 0);
}

/// What an update to `data` leaves in place of `site`.
fn updated(site: Site, data: &[u8]) -> Site {
    let now = Timestamp { secs: 0, nanos: 0 };
    let mut log = UpdateLog::new();
    let mut run = UpdateRun::start("abc".to_string(), now, &mut log);
    match run.archive_extracted(extract_zip(data), now, &mut log) {
        Step::Publish { files, .. } => files,
        _ => site,
    }
}

#[test]
fn an_update_replaces_the_site() {
    let first = archive(&[("index.html", b"one"), ("old.css", b"old")], stored());
    let second = archive(&[("new.js", b"new"), ("index.html", b"two")], stored());
    let site = updated(updated(Site::new(), &first), &second);
    let index = find_file(&site, "index.html", None);
    assert_eq!((index.status, index.body.as_slice()), (200, b"two".as_slice()));
    let script = find_file(&site, "new.js", None);
    assert_eq!((script.status, script.body.as_slice()), (200, b"new".as_slice()));
    assert_eq!(script.content_type.as_deref(), Some("application/javascript"));
    assert_eq!(find_file(&site, "old.css", None).status, 404);
}

#[test]
fn the_index_page_stays() {
    let first = archive(&[("index.html", b"one")], stored());
    let without = archive(&[("other.html", b"two")], stored());
    let mut site = updated(Site::new(), &first);
    for data in [without.as_slice(), b"nonsense", &archive(&[], stored())] {
        site = updated(site, data);
        assert_eq!(find_file(&site, "index.html", Some(b"br, gzip")).status, 200);
        assert_eq!(find_file(&site, "index.html", None).body, b"one");
        assert_eq!(find_file(&site, "other.html", None).status, 404);
    }
}

#[test]
fn from_the_archive_to_the_client() {
    let content = page();
    let data = archive(&[("docs/index.html", &content)], SimpleFileOptions::default());
    let site = extract_zip(&data).ok().unwrap();
    let reply = find_file(&site, "docs/index.html", Some(b"gzip, deflate, br"));
    assert_eq!(reply.content_encoding.as_deref(), Some("br"));
    assert_eq!(unbrotli(&reply.body), content);
    let reply = find_file(&site, "docs/index.html", Some(b"gzip, deflate"));
    assert_eq!(reply.content_encoding.as_deref(), Some("gzip"));
    assert_eq!(gunzip(&reply.body), content);
    let reply = find_file(&site, "docs/index.html", None);
    assert_eq!(reply.content_encoding, None);
    assert_eq!(reply.body, content);
}
