use arweave_host::appstate::AppState;
use arweave_host::ar::{Folder, FolderError, FolderFetch, FolderStep};

fn start(manifest: &str) -> FolderFetch {
    FolderFetch::start(manifest.as_bytes()).ok().unwrap()
}

fn refusal(manifest: &str) -> FolderError {
    FolderFetch::start(manifest.as_bytes()).err().unwrap()
}

fn url(fetch: &FolderFetch) -> String {
    match fetch.next_step() {
        FolderStep::Fetch { url } => url,
        _ => panic!("a file is to be fetched"),
    }
}

fn file(folder: &Folder, path: &str) -> Option<(Vec<u8>, String)> {
    folder.get(path).cloned()
}

#[test]
fn a_whole_folder() {
    let mut fetch = start(
        r#"{"version": 1, "paths": {"z.css": {"id": "tz"}, "a.html": {"id": "ta", "x": 1},
            "m": {"id": "tm"}, "Z.js": {"id": "tZ"}}}"#,
    );
    let mut urls = Vec::new();
    while let FolderStep::Fetch { url } = fetch.next_step() {
        fetch.receive(url.as_bytes().to_vec());
        urls.push(url);
    }
    assert!(matches!(fetch.next_step(), FolderStep::Done));
    assert_eq!(
        urls,
        vec![
            "https://arweave.net/tZ",
            "https://arweave.net/ta",
            "https://arweave.net/tm",
            "https://arweave.net/tz"
        ]
    );
    let folder = fetch.into_files();
    for (path, id, mime) in [
        ("Z.js", "tZ", "application/javascript"),
        ("a.html", "ta", "text/html"),
        ("m", "tm", "application/octet-stream"),
        ("z.css", "tz", "text/css"),
    ] {
        let expected = (format!("https://arweave.net/{id}").into_bytes(), mime.to_string());
        assert_eq!(file(&folder, path), Some(expected));
    }
    assert_eq!(file(&folder, "index.html"), None);
}

#[test]
fn a_folder_without_files() {
    let fetch = start(r#"{"paths": {}}"#);
    assert!(matches!(fetch.next_step(), FolderStep::Done));
}

#[test]
fn a_manifest_that_is_no_json() {
    assert_eq!(refusal("{"), FolderError::NotJson);
    assert_eq!(refusal(""), FolderError::NotJson);
    assert_eq!(refusal("").message(), "error decoding response body");
}

#[test]
fn a_manifest_without_paths() {
    for manifest in ["{}", "[]", "null", "7", r#"{"paths": []}"#, r#"{"paths": "x"}"#, r#"{"Paths": {}}"#] {
        assert_eq!(refusal(manifest), FolderError::InvalidManifest);
    }
    assert_eq!(refusal("{}").message(), "Invalid manifest");
}

#[test]
fn a_path_without_identifier() {
    for info in ["{}", r#"{"id": 1}"#, "null", r#""ta""#, "[]"] {
        let mut fetch = start(&format!(r#"{{"paths": {{"b": {info}, "a": {{"id": "ta"}}}}}}"#));
        assert_eq!(url(&fetch), "https://arweave.net/ta");
        fetch.receive(b"content".to_vec());
        match fetch.next_step() {
            FolderStep::Fail { error } => {
                assert_eq!(error, FolderError::InvalidTxid);
                assert_eq!(error.message(), "Invalid txid");
            }
            _ => panic!("a path without identifier ends the fetching"),
        }
    }
}

#[test]
fn a_manifest_that_was_read_before() {
    let manifest: serde_json::Value = serde_json::from_str(r#"{"paths": {"a": {"id": "t"}}}"#).unwrap();
    let fetch = FolderFetch::from_manifest(&manifest).ok().unwrap();
    assert_eq!(url(&fetch), "https://arweave.net/t");
    let refused = FolderFetch::from_manifest(&serde_json::Value::Null).err();
    assert_eq!(refused, Some(FolderError::InvalidManifest));
}

#[test]
fn a_new_folder_host() {
    let state = AppState::new();
    assert_eq!(state.last_updated, 0);
    assert_eq!(file(&state.files, "index.html"), None);
}
