use arweave_host::clock::Timestamp;
use arweave_host::gateway::{address_of, fetch_zip};
use arweave_host::serve::find_file;
use arweave_host::site::Site;
use arweave_host::update::{client_failure_text, Phase, Step, UpdateLog, UpdateRun};

fn at(secs: i64) -> Timestamp {
    Timestamp { secs, nanos: 5 }
}

fn messages(log: &UpdateLog) -> Vec<(i64, bool, String)> {
    log.entries()
        .iter()
        .map(|e| {
            assert_eq!(e.cid, "abc");
            (e.timestamp.secs, e.success, e.message.clone())
        })
        .collect()
}

fn files(path: &str) -> Site {
    let mut site = Site::new();
    site.store_file(path.to_string(), b"x".to_vec(), vec![], vec![]);
    site
}

#[test]
fn an_update_that_succeeds_at_once() {
    let mut log = UpdateLog::new();
    let mut last_updated: i64 = 0;
    let mut run = UpdateRun::start("abc".to_string(), at(1), &mut log);
    assert_eq!(run.url(), "https://arweave.net/abc");
    assert_eq!((run.attempt(), run.phase()), (1, Phase::Fetching));
    match run.archive_extracted(Ok(files("index.html")), at(2), &mut log) {
        Step::Publish { files, settle_millis } => {
            assert_eq!(settle_millis, 100);
            assert_eq!(find_file(&files, "index.html", None).status, 200);
        }
        _ => panic!("files with an index page are published"),
    }
    assert_eq!(run.phase(), Phase::Publishing);
    assert_eq!(log.entries().len(), 1);
    let reply = run.published("1.25", 10, 20, 300, at(3), at(4), &mut last_updated, &mut log);
    assert_eq!((reply.status, reply.text.as_str()), (200, "Files updated successfully"));
    assert_eq!(last_updated, 3);
    assert_eq!(run.phase(), Phase::Finished);
    assert_eq!(
        messages(&log),
        vec![
            (1, false, "Update started".to_string()),
            (
                4,
                true,
                "Files updated successfully in 1.25s, memory: 10 KB -> 20 KB -> 300 KB".to_string()
            ),
        ]
    );
}

#[test]
fn an_update_whose_fetches_all_fail() {
    let mut log = UpdateLog::new();
    let mut run = UpdateRun::start("abc".to_string(), at(0), &mut log);
    for attempt in 1..15 {
        match run.fetch_failed("timeout", at(attempt), &mut log) {
            Step::Retry { wait_secs, url } => {
                assert_eq!(wait_secs, 60);
                assert_eq!(url, "https://arweave.net/abc");
            }
            _ => panic!("attempt {attempt} is followed by another"),
        }
        assert_eq!(run.attempt() as i64, attempt + 1);
    }
    match run.fetch_failed("timeout", at(15), &mut log) {
        Step::Fail { message } => assert_eq!(message, "Failed to update files after 15 attempts"),
        _ => panic!("the last attempt is followed by none"),
    }
    assert_eq!(run.phase(), Phase::Finished);
    let logged = messages(&log);
    assert_eq!(logged.len(), 16);
    assert_eq!(logged[0], (0, false, "Update started".to_string()));
    for attempt in 1..=15 {
        assert_eq!(
            logged[attempt],
            (attempt as i64, false, "Failed to fetch ZIP: timeout".to_string())
        );
    }
}

#[test]
fn an_update_without_index_page() {
    let mut log = UpdateLog::new();
    let mut run = UpdateRun::start("abc".to_string(), at(0), &mut log);
    for attempt in 1..=15 {
        let step = run.archive_extracted(Ok(files("other.html")), at(attempt), &mut log);
        match step {
            Step::Retry { wait_secs, .. } => assert!(attempt < 15 && wait_secs == 60),
            Step::Fail { message } => {
                assert_eq!(attempt, 15);
                assert_eq!(message, "New files missing index.html");
            }
            Step::Publish { .. } => panic!("files without an index page are not published"),
        }
    }
    assert_eq!(messages(&log)[7], (7, false, "New files missing index.html".to_string()));
}

#[test]
fn an_update_with_a_broken_archive() {
    let mut log = UpdateLog::new();
    let mut run = UpdateRun::start("abc".to_string(), at(0), &mut log);
    for attempt in 1..15 {
        run.archive_extracted(Err("broken".to_string()), at(attempt), &mut log);
    }
    match run.archive_extracted(Err("broken".to_string()), at(15), &mut log) {
        Step::Fail { message } => assert_eq!(message, "Failed to update files after 15 attempts"),
        _ => panic!("the last attempt is followed by none"),
    }
    assert_eq!(messages(&log)[1], (1, false, "Failed to extract ZIP: broken".to_string()));
}

#[test]
fn an_update_that_recovers() {
    let mut log = UpdateLog::new();
    let mut run = UpdateRun::start("abc".to_string(), at(0), &mut log);
    run.fetch_failed("reset", at(1), &mut log);
    run.archive_extracted(Err("broken".to_string()), at(2), &mut log);
    assert!(matches!(
        run.archive_extracted(Ok(files("index.html")), at(3), &mut log),
        Step::Publish { .. }
    ));
    assert_eq!(run.attempt(), 3);
    assert_eq!(log.entries().len(), 3);
}

#[test]
fn addresses_at_the_gateway() {
    assert_eq!(address_of("tx-1"), "https://arweave.net/tx-1");
    assert_eq!(address_of(""), "https://arweave.net/");
}

#[test]
fn answers_of_the_gateway() {
    assert_eq!(fetch_zip(200), Ok(()));
    assert_eq!(fetch_zip(299), Ok(()));
    assert_eq!(
        fetch_zip(404),
        Err("Failed to fetch ZIP from Arweave: 404 Not Found".to_string())
    );
    assert_eq!(
        fetch_zip(302),
        Err("Failed to fetch ZIP from Arweave: 302 Found".to_string())
    );
    assert_eq!(
        fetch_zip(599),
        Err("Failed to fetch ZIP from Arweave: 599 <unknown status code>".to_string())
    );
    for code in 100..1000 {
        let status = http::StatusCode::from_u16(code).unwrap();
        assert_eq!(fetch_zip(code).is_ok(), status.is_success());
    }
}

#[test]
fn a_client_that_cannot_be_had() {
    assert_eq!(client_failure_text("no TLS"), "Failed to create HTTP client: no TLS");
}
