use arweave_host::clock::{LocalTime, Timestamp};
use arweave_host::reply::{api_key_middleware, error_reply, redirect_to_https};
use arweave_host::serve::find_file;
use arweave_host::server::{get_update_log, health_check, AppState};
use arweave_host::startup::{next_action, tls_files, StartAction, StartEvent};
use arweave_host::update::UpdateRun;
use arweave_host::visits::{VisitCounter, VisitStats};
use chrono::{DateTime, Datelike, FixedOffset, NaiveDate};

fn local(secs: i64, offset: i32) -> LocalTime {
    LocalTime { secs, nanos: 0, offset }
}

#[test]
fn days_are_those_of_chrono() {
    for secs in [0, 1, -1, 86399, 86400, -86400, -86401, 1700000000, -62135596800, 253402300799] {
        for offset in [0, 3600, -3600, 19800, -43200, 50400, 86399, -86399] {
            let date = DateTime::from_timestamp(secs, 0)
                .unwrap()
                .with_timezone(&FixedOffset::east_opt(offset).unwrap())
                .date_naive();
            assert_eq!(local(secs, offset).date(), date.num_days_from_ce() as i64 - 719163);
        }
    }
    assert_eq!(local(i64::MAX, i32::MAX).date(), 106751991192155);
    assert_eq!(local(i64::MIN, i32::MIN).date(), -106751991192156);
}

#[test]
fn times_as_text() {
    let time = Timestamp { secs: 1700000000, nanos: 123000000 };
    assert_eq!(time.to_rfc3339().as_deref(), Some("2023-11-14T22:13:20.123+00:00"));
    assert_eq!(
        local(1700000000, 3600).to_rfc3339().as_deref(),
        Some("2023-11-14T23:13:20+01:00")
    );
    assert_eq!(
        local(8210266876799, 86340).to_rfc3339().as_deref(),
        Some("+262143-01-01T23:58:59+23:59")
    );
    assert_eq!(local(0, 86400).to_rfc3339(), None);
    assert_eq!(Timestamp { secs: i64::MAX, nanos: 0 }.to_rfc3339(), None);
    assert_eq!(Timestamp { secs: 0, nanos: 2000000000 }.to_rfc3339(), None);
}

#[test]
fn days_as_text() {
    let text = |date: i64| VisitStats { date, index_visits: 0, total_visits: 0 }.date_text();
    assert_eq!(text(0).as_deref(), Some("1970-01-01"));
    assert_eq!(text(19675).as_deref(), Some("2023-11-14"));
    assert_eq!(text(-1).as_deref(), Some("1969-12-31"));
    assert_eq!(text(100_000_000), None);
    assert_eq!(text(i64::MAX), None);
    assert_eq!(text(i64::MIN), None);
    for (year, month, day) in [(1600, 2, 29), (2024, 2, 29), (9999, 12, 31), (10000, 1, 1), (-1, 3, 1)] {
        let date = NaiveDate::from_ymd_opt(year, month, day).unwrap();
        let json = serde_json::to_value(date).unwrap();
        assert_eq!(text(i64::from(date.num_days_from_ce()) - 719163).as_deref(), json.as_str());
    }
}

#[test]
fn visits_of_one_day() {
    let mut visits = VisitCounter::new(local(0, 0));
    for path in ["index.html", "a.css", "index.html", "x/index.html"] {
        assert_eq!(visits.record(path, local(86399, 0)), None);
    }
    let stats = visits.stats();
    assert_eq!((stats.date, stats.index_visits, stats.total_visits), (0, 2, 4));
}

#[test]
fn the_first_visit_of_a_day_closes_the_last() {
    let mut visits = VisitCounter::new(local(0, 0));
    visits.record("index.html", local(10, 0));
    let closed = visits.record("index.html", local(86400, 0)).unwrap();
    assert_eq!((closed.date, closed.index_visits, closed.total_visits), (0, 2, 2));
    assert_eq!(visits.total_visits(), 0);
    assert_eq!(visits.last_reset(), local(86400, 0));
    // A clock that goes back closes a day as well.
    let closed = visits.record("a", local(0, 0)).unwrap();
    assert_eq!((closed.date, closed.index_visits, closed.total_visits), (1, 0, 1));
}

#[test]
fn no_visit_is_lost() {
    let mut visits = VisitCounter::new(local(0, 0));
    let mut total = 0;
    let mut index = 0;
    for i in 0..1000 {
        let path = if i % 3 == 0 { "index.html" } else { "other" };
        if let Some(closed) = visits.record(path, local(i * 5000, 0)) {
            total += closed.total_visits;
            index += closed.index_visits;
        }
    }
    let stats = visits.stats();
    assert_eq!(total + stats.total_visits, 1000);
    assert_eq!(index + stats.index_visits, 334);
}

#[test]
fn requests_with_the_key_go_on() {
    assert!(api_key_middleware(Some(b"secret"), "secret").is_none());
    assert!(api_key_middleware(Some(b""), "").is_none());
    for (header, key) in [
        (None, "secret"),
        (Some(b"Secret".as_slice()), "secret"),
        (Some(b"secret ".as_slice()), "secret"),
        (Some(b"".as_slice()), "secret"),
        (None, ""),
        (Some("schlüssel".as_bytes()), "schlüssel"),
    ] {
        let reply = api_key_middleware(header, key).unwrap();
        assert_eq!(reply.status, 401);
        assert_eq!(reply.content_type, None);
        assert_eq!(reply.body, b"Invalid or missing API Key");
    }
}

#[test]
fn plain_requests_are_redirected() {
    for text in [
        "http://example.com/a/b?c=d",
        "http://example.com",
        "http://example.com?q",
        "http://example.com/%20x/",
        "HTTP://example.com/x",
        "https://example.com/a",
        "ftp://example.com/a",
        "/a/b?c=d",
        "*",
    ] {
        let uri: http::Uri = text.parse().unwrap();
        let path_and_query = uri.path_and_query().map(|p| p.as_str()).unwrap_or("");
        let reply = redirect_to_https(uri.scheme_str(), path_and_query);
        if uri.scheme() == Some(&http::uri::Scheme::HTTP) {
            let mut parts = uri.clone().into_parts();
            parts.scheme = Some(http::uri::Scheme::HTTPS);
            parts.authority = Some(http::uri::Authority::from_static("localhost:8443"));
            let expected = http::Uri::from_parts(parts).unwrap().to_string();
            let reply = reply.unwrap();
            assert_eq!(reply.status, 308);
            assert_eq!(reply.location, Some(expected), "{text}");
            assert_eq!(reply.body, b"");
        } else {
            assert!(reply.is_none(), "{text}");
        }
    }
    let reply = redirect_to_https(Some("http"), "/a?b").unwrap();
    assert_eq!(reply.location.as_deref(), Some("https://localhost:8443/a?b"));
}

#[test]
fn failures_are_told() {
    let reply = error_reply("New files missing index.html");
    assert_eq!(reply.status, 500);
    assert_eq!(reply.text, "Error: New files missing index.html");
}

#[test]
fn a_new_host() {
    let state = AppState::new("key".to_string(), local(86400 * 3, 0));
    assert_eq!(state.last_updated, 0);
    assert_eq!(state.api_key, "key");
    assert!(state.update_log.entries().is_empty());
    let stats = state.visits.stats();
    assert_eq!((stats.date, stats.index_visits, stats.total_visits), (3, 0, 0));
    for path in ["index.html", "", "a"] {
        assert_eq!(find_file(&state.files, path, Some(b"br")).status, 404);
    }
}

#[test]
fn the_report_of_the_host() {
    let mut state = AppState::new("key".to_string(), local(1700000000, -3600));
    UpdateRun::start("abc".to_string(), Timestamp { secs: 7, nanos: 0 }, &mut state.update_log);
    state.visits.record("index.html", local(1700000001, -3600));
    state.visits.record("a", local(1700000002, -3600));
    let report = get_update_log(&state.update_log, &state.visits);
    assert_eq!(report.update_log.entries().len(), 1);
    assert_eq!(report.update_log.entries()[0].message, "Update started");
    assert_eq!(report.stats.date, 19675);
    assert_eq!((report.stats.index_visits, report.stats.total_visits), (1, 2));
    assert_eq!(report.last_reset.as_deref(), Some("2023-11-14T21:13:20-01:00"));
}

#[test]
fn the_health_of_the_host() {
    let health = health_check(Timestamp { secs: 0, nanos: 0 });
    assert_eq!(health.status, "healthy");
    assert_eq!(health.timestamp.as_deref(), Some("1970-01-01T00:00:00+00:00"));
}

#[test]
fn starting_the_host() {
    for (cert_is_file, key_is_file) in [(false, false), (true, false), (false, true)] {
        assert_eq!(
            next_action(StartEvent::Probed { cert_is_file, key_is_file }),
            StartAction::ServeHttp { port: 3000 }
        );
    }
    assert_eq!(
        next_action(StartEvent::Probed { cert_is_file: true, key_is_file: true }),
        StartAction::LoadTls
    );
    assert_eq!(next_action(StartEvent::Loaded { ok: true }), StartAction::ServeHttps { port: 8443 });
    assert_eq!(next_action(StartEvent::Loaded { ok: false }), StartAction::ServeHttp { port: 3000 });
}

#[test]
fn where_the_certificate_is_kept() {
    let files = tls_files(None, None);
    assert_eq!((files.cert.as_str(), files.key.as_str()), ("./cert.pem", "./key.pem"));
    let files = tls_files(Some("/c".to_string()), Some("/k".to_string()));
    assert_eq!((files.cert.as_str(), files.key.as_str()), ("/c", "/k"));
}
