use rimmich_uploader::config::{Config, CredentialError, UserConfig};
use rimmich_uploader::http::{
    check_ping, classify_response, is_success_status, normalize_server_url, ping_url, upload_url,
    OutcomeKind, PingError, UploadOutcome,
};
use rimmich_uploader::identity::{
    build_identity, device_asset_id, form_fields, prepare_upload, PrepareError, Timestamp,
};
use rimmich_uploader::media::{
    is_image_or_video, media_kind_of_mime, select_media, DirEntryInfo, MediaKind,
};
use rimmich_uploader::progress::BatchProgress;
use rimmich_uploader::scheduler::{ScheduleError, Scheduler};
use rimmich_uploader::text::{contains_text, decimal_string, starts_with_text, text_eq, trim_end_slashes};

fn entry(path: &str, is_file: bool, depth: usize) -> DirEntryInfo {
    DirEntryInfo { path: path.to_string(), is_file, depth }
}

fn ts(secs: i64) -> Timestamp {
    Timestamp { secs, nanos: 0 }
}

/// Runs a whole batch, answering each started file with `outcome_of(index)`,
/// finishing the oldest running file first. Returns the outcomes in order of
/// completion, the progress counters and the most files seen running at once.
fn run_batch(
    total: usize,
    limit: usize,
    outcome_of: &dyn Fn(usize) -> UploadOutcome,
) -> (Vec<(usize, UploadOutcome)>, BatchProgress, usize) {
    let mut s = Scheduler::new(total, limit).unwrap();
    let mut progress = BatchProgress::new(total);
    let mut running: Vec<usize> = Vec::new();
    let mut outcomes = Vec::new();
    let mut peak = 0;
    while !s.is_done() {
        while let Some(i) = s.start_next() {
            running.push(i);
        }
        peak = peak.max(s.running());
        assert!(s.running() <= limit);
        let i = running.remove(0);
        let o = outcome_of(i);
        s.complete(i, o.kind()).unwrap();
        progress.record(o.kind());
        outcomes.push((i, o));
    }
    (outcomes, progress, peak)
}

#[test]
fn text_helpers() {
    assert!(contains_text("the asset already exists here", "already exists"));
    assert!(!contains_text("already exist", "already exists"));
    assert!(contains_text("abc", ""));
    assert!(starts_with_text("image/png", "image/"));
    assert!(!starts_with_text("imag", "image/"));
    assert!(text_eq("abc", "abc"));
    assert!(!text_eq("abc", "abd"));
    assert_eq!(decimal_string(0), "0");
    assert_eq!(decimal_string(409), "409");
    assert_eq!(decimal_string(u64::MAX), "18446744073709551615");
    assert_eq!(trim_end_slashes("http://h:2283///"), "http://h:2283");
    assert_eq!(trim_end_slashes("///"), "");
}

#[test]
fn mime_classification() {
    assert_eq!(media_kind_of_mime("image/jpeg"), Some(MediaKind::Image));
    assert_eq!(media_kind_of_mime("video/mp4"), Some(MediaKind::Video));
    assert_eq!(media_kind_of_mime("text/plain"), None);
    assert!(is_image_or_video("/photos/a.jpg"));
    assert!(is_image_or_video("/photos/b.PNG"));
    assert!(is_image_or_video("/photos/c.mp4"));
    assert!(!is_image_or_video("/photos/notes.txt"));
    assert!(!is_image_or_video("/photos/no_extension"));
}

#[test]
fn discovery_keeps_only_media_files_in_scope() {
    let entries = vec![
        entry("/d", false, 0),
        entry("/d/a.jpg", true, 1),
        entry("/d/sub", false, 1),
        entry("/d/sub/b.mov", true, 2),
        entry("/d/c.txt", true, 1),
        entry("/d/x.png", false, 1),
    ];
    let flat = select_media(&entries, false);
    let paths: Vec<&str> = flat.iter().map(|m| m.path.as_str()).collect();
    assert_eq!(paths, vec!["/d/a.jpg"]);
    let deep = select_media(&entries, true);
    let paths: Vec<&str> = deep.iter().map(|m| m.path.as_str()).collect();
    assert_eq!(paths, vec!["/d/a.jpg", "/d/sub/b.mov"]);
    assert_eq!(deep[1].kind, MediaKind::Video);
    assert_eq!((deep[0].entry, deep[1].entry), (1, 3));
    assert!(select_media(&Vec::new(), true).is_empty());
}

#[test]
fn device_asset_id_is_stable_per_path() {
    let a1 = device_asset_id("/photos/a.jpg");
    let a2 = device_asset_id("/photos/a.jpg");
    let b = device_asset_id("/photos/b.jpg");
    assert_eq!(a1, a2);
    assert_ne!(a1, b);
    let digits = a1.strip_prefix("rimmich-uploader-").unwrap();
    assert!(!digits.is_empty());
    assert!(digits.chars().all(|c| c.is_ascii_digit()));
    assert_ne!(digits, "/photos/a.jpg");
}

#[test]
fn identity_time_fallbacks() {
    let id = build_identity("/p/a.jpg", Some(ts(1)), Some(ts(2)), ts(3));
    assert_eq!(id.created_at, ts(1));
    assert_eq!(id.modified_at, ts(2));
    assert_eq!(id.device_id, "rimmich-uploader");
    let id = build_identity("/p/a.jpg", None, Some(ts(2)), ts(3));
    assert_eq!(id.created_at, ts(2));
    assert_eq!(id.modified_at, ts(2));
    let id = build_identity("/p/a.jpg", None, None, ts(3));
    assert_eq!(id.created_at, ts(3));
    assert_eq!(id.modified_at, ts(3));
}

#[test]
fn form_fields_in_order() {
    let id = build_identity("/p/a.jpg", None, None, ts(0));
    let fields = form_fields(&id, "C", "M");
    let pairs: Vec<(&str, &str)> =
        fields.iter().map(|f| (f.name.as_str(), f.value.as_str())).collect();
    assert_eq!(
        pairs,
        vec![
            ("deviceAssetId", id.device_asset_id.as_str()),
            ("deviceId", "rimmich-uploader"),
            ("fileCreatedAt", "C"),
            ("fileModifiedAt", "M"),
            ("isFavorite", "false"),
        ]
    );
}

#[test]
fn prepare_upload_builds_request() {
    let q = prepare_upload(
        "/p/a.jpg",
        Some("a.jpg".to_string()),
        Some(ts(1431648000)),
        Some(Timestamp { secs: 0, nanos: 500_000_000 }),
        ts(5),
    )
    .unwrap();
    assert_eq!(q.file_name, "a.jpg");
    assert_eq!(q.mime, "image/jpeg");
    assert_eq!(q.fields[2].value, "2015-05-15T00:00:00+00:00");
    assert_eq!(q.fields[3].value, "1970-01-01T00:00:00.500+00:00");
    assert_eq!(q.fields[0].value, device_asset_id("/p/a.jpg"));
}

#[test]
fn prepare_upload_with_missing_times_succeeds() {
    let q = prepare_upload("/p/v.mp4", Some("v.mp4".to_string()), None, None, ts(86400)).unwrap();
    assert_eq!(q.mime, "video/mp4");
    assert_eq!(q.fields[2].value, "1970-01-02T00:00:00+00:00");
    assert_eq!(q.fields[3].value, "1970-01-02T00:00:00+00:00");
    let q = prepare_upload("/p/a.jpg", Some("a.jpg".to_string()), None, Some(ts(-1)), ts(0)).unwrap();
    assert_eq!(q.fields[2].value, "1969-12-31T23:59:59+00:00");
    assert_eq!(q.fields[3].value, "1969-12-31T23:59:59+00:00");
}

#[test]
fn prepare_upload_errors() {
    let r = prepare_upload("/p/a.jpg", None, None, None, ts(0));
    assert_eq!(r.unwrap_err(), PrepareError::InvalidName);
    let r = prepare_upload("/p/a.jpg", Some("a.jpg".to_string()), Some(ts(i64::MAX)), None, ts(0));
    assert_eq!(r.unwrap_err(), PrepareError::TimeOutOfRange);
}

#[test]
fn response_classification() {
    assert!(is_success_status(200));
    assert!(is_success_status(299));
    assert!(!is_success_status(300));
    assert!(!is_success_status(199));
    assert_eq!(classify_response(201, "whatever"), UploadOutcome::Uploaded);
    assert_eq!(classify_response(409, ""), UploadOutcome::AlreadyExists);
    assert_eq!(
        classify_response(400, "{\"message\":\"asset already exists\"}"),
        UploadOutcome::AlreadyExists
    );
    assert_eq!(
        classify_response(500, "boom"),
        UploadOutcome::Failed("Server returned error 500: boom".to_string())
    );
    assert!(classify_response(500, "boom").is_failed());
    assert_eq!(classify_response(500, "boom").kind(), OutcomeKind::Failed);
}

#[test]
fn same_file_twice_never_fails() {
    let first = classify_response(201, "{}");
    let second = classify_response(409, "duplicate");
    assert_eq!(first, UploadOutcome::Uploaded);
    assert_eq!(second, UploadOutcome::AlreadyExists);
    let second_without_dedup = classify_response(201, "{}");
    assert_eq!(second_without_dedup, UploadOutcome::Uploaded);
}

#[test]
fn ping_checks() {
    assert_eq!(check_ping(200, "{\"res\":\"pong\"}"), Ok(()));
    assert_eq!(check_ping(500, "pong"), Err(PingError::Status(500)));
    assert_eq!(
        check_ping(200, "hello"),
        Err(PingError::UnexpectedBody("hello".to_string()))
    );
}

/// Number of uploads run when the batch is gated on the connectivity check.
fn uploads_after_ping(status: u16, body: &str, files: usize) -> usize {
    let calls = std::cell::Cell::new(0usize);
    if check_ping(status, body).is_ok() {
        run_batch(files, 2, &|_| {
            calls.set(calls.get() + 1);
            UploadOutcome::Uploaded
        });
    }
    calls.get()
}

#[test]
fn ping_failure_aborts_before_any_upload() {
    assert_eq!(uploads_after_ping(500, "Internal Server Error", 3), 0);
    assert_eq!(uploads_after_ping(500, "pong", 3), 0);
    assert_eq!(uploads_after_ping(200, "pong", 3), 3);
}

#[test]
fn urls() {
    let server = normalize_server_url("http://192.168.1.10:2283/");
    assert_eq!(server, "http://192.168.1.10:2283");
    assert_eq!(ping_url(&server), "http://192.168.1.10:2283/api/server/ping");
    assert_eq!(upload_url(&server), "http://192.168.1.10:2283/api/assets");
}

#[test]
fn scheduler_rejects_zero_limit() {
    assert_eq!(Scheduler::new(5, 0).err(), Some(ScheduleError::InvalidConfiguration));
}

#[test]
fn scheduler_empty_batch_is_done_at_once() {
    let mut s = Scheduler::new(0, 4).unwrap();
    assert!(s.is_done());
    assert_eq!(s.start_next(), None);
}

#[test]
fn scheduler_respects_limit() {
    let mut s = Scheduler::new(5, 2).unwrap();
    assert_eq!(s.start_next(), Some(0));
    assert_eq!(s.start_next(), Some(1));
    assert_eq!(s.start_next(), None);
    assert_eq!(s.running(), 2);
    assert_eq!(s.complete(1, OutcomeKind::Uploaded), Ok(()));
    assert_eq!(s.complete(1, OutcomeKind::Uploaded), Err(ScheduleError::NotRunning));
    assert_eq!(s.complete(3, OutcomeKind::Uploaded), Err(ScheduleError::NotRunning));
    assert_eq!(s.start_next(), Some(2));
    assert_eq!(s.start_next(), None);
    assert_eq!(s.finished(), 1);
    assert_eq!(s.total(), 5);
    assert_eq!(s.limit(), 2);
    let (_, _, peak) = run_batch(7, 3, &|_| UploadOutcome::Uploaded);
    assert_eq!(peak, 3);
}

#[test]
fn every_file_gets_one_outcome_despite_failures() {
    let (outcomes, progress, _) = run_batch(6, 2, &|i| {
        if i == 3 {
            UploadOutcome::Failed("network down".to_string())
        } else {
            UploadOutcome::Uploaded
        }
    });
    assert_eq!(outcomes.len(), 6);
    let mut seen: Vec<usize> = outcomes.iter().map(|(i, _)| *i).collect();
    seen.sort();
    assert_eq!(seen, vec![0, 1, 2, 3, 4, 5]);
    assert_eq!(outcomes.iter().filter(|(_, o)| o.is_failed()).count(), 1);
    assert_eq!(progress.completed(), 6);
    assert_eq!(progress.failed(), 1);
    assert!(progress.is_finished());
}

#[test]
fn three_images_and_a_text_file() {
    let entries = vec![
        entry("/d", false, 0),
        entry("/d/1.jpg", true, 1),
        entry("/d/2.png", true, 1),
        entry("/d/readme.txt", true, 1),
        entry("/d/3.gif", true, 1),
    ];
    let files = select_media(&entries, false);
    assert_eq!(files.len(), 3);
    let (outcomes, progress, peak) = run_batch(files.len(), 2, &|_| UploadOutcome::Uploaded);
    assert_eq!(outcomes.len(), 3);
    assert!(peak <= 2);
    assert_eq!(progress.completed(), 3);
}

#[test]
fn conflict_on_every_upload() {
    let (outcomes, progress, _) = run_batch(4, 2, &|_| classify_response(409, "Conflict"));
    assert!(outcomes.iter().all(|(_, o)| *o == UploadOutcome::AlreadyExists));
    assert_eq!(progress.failed(), 0);
    assert_eq!(progress.completed(), progress.total());
}

#[test]
fn progress_counts() {
    let mut p = BatchProgress::new(3);
    assert!(!p.record(OutcomeKind::Uploaded));
    assert!(p.record(OutcomeKind::Failed));
    assert!(!p.is_finished());
    assert!(!p.record(OutcomeKind::AlreadyExists));
    assert_eq!((p.total(), p.completed(), p.failed()), (3, 3, 1));
    assert!(p.is_finished());
}

fn user(server: &str, key: &str) -> UserConfig {
    UserConfig { api_key: key.to_string(), server_url: server.to_string() }
}

#[test]
fn config_current_user() {
    let mut c = Config::new();
    assert!(c.get_current_user().is_none());
    c.add_user("alice".to_string(), user("http://a", "ka"), false);
    c.add_user("bob".to_string(), user("http://b", "kb"), false);
    let (name, u) = c.get_current_user().unwrap();
    assert_eq!(name, "alice");
    assert_eq!(u.server_url, "http://a");
    assert!(c.set_default("bob"));
    assert!(!c.set_default("carol"));
    assert_eq!(c.get_current_user().unwrap().0, "bob");
    c.add_user("alice".to_string(), user("http://a2", "ka2"), true);
    assert_eq!(c.users.len(), 2);
    assert_eq!(c.get_current_user().unwrap().1.api_key, "ka2");
    assert_eq!(c.find_user("bob"), Some(1));
    assert!(c.remove_user("alice"));
    assert!(!c.remove_user("alice"));
    assert!(c.current_user.is_none());
    assert!(c.get_current_user().is_none());
}

#[test]
fn credential_resolution() {
    let mut c = Config::new();
    c.add_user("alice".to_string(), user("http://a", "ka"), true);
    assert_eq!(
        c.resolve_credentials(Some("http://s".to_string()), Some("k".to_string()), None),
        Ok(("http://s".to_string(), "k".to_string()))
    );
    assert_eq!(
        c.resolve_credentials(Some("http://s".to_string()), None, None),
        Ok(("http://a".to_string(), "ka".to_string()))
    );
    assert_eq!(
        c.resolve_credentials(None, None, Some("bob".to_string())),
        Err(CredentialError::UserNotFound("bob".to_string()))
    );
    assert_eq!(
        Config::new().resolve_credentials(None, None, None),
        Err(CredentialError::NoCurrentUser)
    );
}

#[test]
fn default_config_is_empty() {
    let c = Config::default();
    assert!(c.current_user.is_none());
    assert!(c.users.is_empty());
    assert!(c.get_current_user().is_none());
}
