use stay_ahead::creation::{new_activity_task, new_quota_task, CreateError, ONE_UNIT};
use stay_ahead::encoding::{decode_hex, encode_hex, xor_decrypt, xor_encrypt, CRYPT_KEY};
use stay_ahead::state::UpdateError;
use stay_ahead::sync::{
    decimal_text, pull_outcome, pull_request, push_outcome, push_request, HttpMethod, SyncError,
    SyncTarget,
};
use stay_ahead::sync_mode::SyncEvent;
use stay_ahead::task::ParseError;
use stay_ahead::{
    decode, encode, AppState, Date, MyTask, SerializableState, SerializableTask, SyncMode, Weekday,
};

fn date(s: &str) -> Date {
    Date::parse_iso(s).expect("valid date")
}

fn sample_task(id: i64) -> MyTask {
    MyTask {
        id,
        action: "read".to_string(),
        count_per_day: 10_000,
        unit: "minutes".to_string(),
        count_accum: 2_500,
        start: date("2024-01-01"),
        end: date("2024-01-08"),
        effective_dow: vec![Weekday::Mon, Weekday::Wed, Weekday::Fri],
        daily_tasks: Some(vec!["chapter 1".to_string(), "chapter 2".to_string()]),
        name: Some("Reading".to_string()),
        archive: false,
    }
}

fn same(a: &MyTask, b: &MyTask) -> bool {
    a.id == b.id
        && a.action == b.action
        && a.count_per_day == b.count_per_day
        && a.unit == b.unit
        && a.count_accum == b.count_accum
        && a.start == b.start
        && a.end == b.end
        && a.effective_dow == b.effective_dow
        && a.daily_tasks == b.daily_tasks
        && a.name == b.name
        && a.archive == b.archive
}

fn configured_state() -> AppState {
    let mut st = AppState::empty();
    st.github_pat = Some("ghp_token".to_string());
    st.gist_id = Some("abc123".to_string());
    st.gist_file_name = Some("data.json".to_string());
    st
}

#[test]
fn obfuscation_known_value() {
    assert_eq!(encode("A"), "0e");
    assert_eq!(encode(""), "");
    assert_eq!(CRYPT_KEY, "OBFUSCATION_ONLY");
    assert_eq!(decode("0e"), Some("A".to_string()));
    assert_eq!(decode("0E"), Some("A".to_string()));
}

#[test]
fn obfuscation_round_trip() {
    for s in ["", "SECRET-REDACTED", "héllo ✓ 漢字", "OBFUSCATION_ONLY!"] {
        let e = encode(s);
        assert!(e.chars().all(|c| c.is_ascii_hexdigit() && !c.is_ascii_uppercase()));
        if !s.is_empty() {
            assert_ne!(e.as_str(), s);
        }
        assert_eq!(decode(&e), Some(s.to_string()));
    }
}

#[test]
fn obfuscation_rejects_bad_text() {
    assert_eq!(decode("abc"), None);
    assert_eq!(decode("zz"), None);
    assert_eq!(decode("é1"), None);
    assert_eq!(decode_hex("0a1B"), Some(vec![0x0a, 0x1b]));
    assert_eq!(decode_hex("0g"), None);
}

#[test]
fn hex_and_xor_parts() {
    assert_eq!(encode_hex(&[0x00, 0xff, 0x10]), "00ff10");
    let x = xor_encrypt("ab", "k");
    assert_eq!(x, vec![b'a' ^ b'k', b'b' ^ b'k']);
    assert_eq!(xor_decrypt(&x, "k"), Some("ab".to_string()));
    assert_eq!(xor_encrypt("ab", ""), Vec::<u8>::new());
    assert_eq!(xor_decrypt(&[0xff], ""), Some(String::new()));
    assert_eq!(xor_decrypt(&[0xff ^ b'k'], "k"), None);
}

#[test]
fn task_flat_form() {
    let t = sample_task(7);
    let s = SerializableTask::from(&t);
    assert_eq!(s.start, "2024-01-01");
    assert_eq!(s.end, "2024-01-08");
    assert_eq!(s.effective_dow, vec!["Mon", "Wed", "Fri"]);
    assert_eq!(s.action, "read");
    assert_eq!(s.daily_tasks, t.daily_tasks);
}

#[test]
fn task_round_trip() {
    let t = sample_task(7);
    let back = MyTask::try_from(&SerializableTask::from(&t)).unwrap();
    assert!(same(&back, &t));
    let mut archived = sample_task(8);
    archived.archive = true;
    archived.name = None;
    archived.daily_tasks = None;
    let back = MyTask::try_from(&SerializableTask::from(&archived)).unwrap();
    assert!(same(&back, &archived));
}

#[test]
fn task_reading_errors() {
    let mut s = SerializableTask::from(&sample_task(1));
    s.start = "2024/01/01".to_string();
    assert_eq!(MyTask::try_from(&s).unwrap_err(), ParseError::InvalidDate);
    let mut s = SerializableTask::from(&sample_task(1));
    s.effective_dow = vec!["Mon".to_string(), "Funday".to_string()];
    assert_eq!(MyTask::try_from(&s).unwrap_err(), ParseError::InvalidWeekday);
    let mut s = SerializableTask::from(&sample_task(1));
    s.effective_dow = vec!["monday".to_string(), "Sunday".to_string()];
    assert_eq!(MyTask::try_from(&s).unwrap().effective_dow, vec![Weekday::Mon, Weekday::Sun]);
}

#[test]
fn state_storage_round_trip() {
    let mut st = configured_state();
    st.insert_task(sample_task(1));
    let stored = SerializableState::for_storage(&st);
    assert_eq!(stored.github_pat, Some(encode("ghp_token")));
    assert_eq!(stored.gist_id, Some("abc123".to_string()));
    let back = AppState::from_storage(stored).unwrap();
    assert_eq!(back.github_pat, Some("ghp_token".to_string()));
    assert_eq!(back.sync_mode, SyncMode::NotSynced);
    assert!(same(&back.tasks.unwrap()[0], &sample_task(1)));
    let plain = SerializableState::from(&st);
    assert_eq!(plain.github_pat, Some("ghp_token".to_string()));
    let again = AppState::try_from(plain).unwrap();
    assert_eq!(again.gist_file_name, Some("data.json".to_string()));
}

#[test]
fn stored_token_must_be_obfuscated() {
    let st = configured_state();
    let mut stored = SerializableState::from(&st);
    stored.github_pat = Some("not hex".to_string());
    assert_eq!(AppState::from_storage(stored).unwrap_err(), ParseError::InvalidToken);
    let loaded = AppState::load_or_empty(None);
    assert!(loaded.tasks.is_none() && loaded.github_pat.is_none());
}

#[test]
fn task_operations() {
    let mut st = AppState::empty();
    st.insert_task(sample_task(1));
    st.insert_task(sample_task(2));
    assert_eq!(st.find_task(2), Some(1));
    assert_eq!(st.log_progress(2, 1_500), Ok(()));
    assert_eq!(st.tasks.as_ref().unwrap()[1].count_accum, 4_000);
    assert_eq!(st.log_progress(2, 0), Err(UpdateError::NothingLogged));
    assert_eq!(st.log_progress(9, 5), Err(UpdateError::UnknownTask));
    assert_eq!(st.log_progress(2, u64::MAX), Err(UpdateError::Overflow));
    st.sync_mode = SyncMode::Pushing;
    assert_eq!(st.log_progress(2, 5), Err(UpdateError::SyncInFlight));
    st.sync_mode = SyncMode::InSync;
    assert_eq!(st.remove_task(1), Err(UpdateError::NotArchived));
    assert!(st.toggle_archive(1));
    assert!(st.tasks.as_ref().unwrap()[0].archive);
    assert!(st.rename_task(2, Some("Books".to_string())));
    assert_eq!(st.tasks.as_ref().unwrap()[1].name, Some("Books".to_string()));
    assert_eq!(st.remove_task(1), Ok(()));
    assert_eq!(st.remove_task(1), Err(UpdateError::UnknownTask));
    assert_eq!(st.tasks.as_ref().unwrap().len(), 1);
    let mut replacement = sample_task(2);
    replacement.count_accum = 0;
    st.insert_task(replacement);
    assert_eq!(st.tasks.as_ref().unwrap().len(), 1);
    assert_eq!(st.tasks.as_ref().unwrap()[0].count_accum, 0);
    assert!(!st.toggle_archive(42));
}

#[test]
fn quota_task_creation() {
    let dow = vec![Weekday::Fri, Weekday::Mon, Weekday::Fri];
    let t = new_quota_task(5, "read".to_string(), 10_000, "minutes".to_string(), date("2024-01-01"), date("2024-01-31"), &dow).unwrap();
    assert_eq!(t.effective_dow, vec![Weekday::Mon, Weekday::Fri]);
    assert_eq!(t.count_accum, 0);
    let err = |a: &str, c: u64, u: &str, d: &Vec<Weekday>| {
        new_quota_task(1, a.to_string(), c, u.to_string(), date("2024-01-01"), date("2024-01-02"), d).unwrap_err()
    };
    assert_eq!(err("", 1, "m", &dow), CreateError::EmptyAction);
    assert_eq!(err("a", 0, "m", &dow), CreateError::ZeroCountPerDay);
    assert_eq!(err("a", 1, "", &dow), CreateError::EmptyUnit);
    assert_eq!(err("a", 1, "m", &vec![]), CreateError::NoWeekday);
}

#[test]
fn activity_task_creation() {
    let acts = vec!["a".to_string(), "".to_string(), "b".to_string(), "c".to_string()];
    let t = new_activity_task(3, "Plan".to_string(), acts, date("2024-01-01"), &vec![Weekday::Wed, Weekday::Mon, Weekday::Fri]).unwrap();
    assert_eq!(t.end.to_iso_string(), "2024-01-05");
    assert_eq!(t.daily_tasks, Some(vec!["a".to_string(), "b".to_string(), "c".to_string()]));
    assert_eq!(t.count_per_day, ONE_UNIT);
    assert_eq!(t.action, "Complete");
    assert_eq!(t.name, Some("Plan".to_string()));
    let e = new_activity_task(3, "".to_string(), vec!["a".to_string()], date("2024-01-01"), &vec![Weekday::Mon]);
    assert_eq!(e.unwrap_err(), CreateError::EmptyName);
    let e = new_activity_task(3, "P".to_string(), vec![], date("2024-01-01"), &vec![Weekday::Mon]);
    assert_eq!(e.unwrap_err(), CreateError::NoActivities);
    let e = new_activity_task(3, "P".to_string(), vec!["a".to_string()], date("2024-01-01"), &vec![]);
    assert_eq!(e.unwrap_err(), CreateError::NoCompletionDate);
}

#[test]
fn pull_with_incomplete_config() {
    let mut st = AppState::empty();
    st.gist_id = Some("abc123".to_string());
    st.gist_file_name = Some("data.json".to_string());
    st.insert_task(sample_task(1));
    st.sync_mode = SyncMode::InSync;
    let r = st.begin_sync(true);
    assert!(matches!(r, Err(SyncError::IncompleteConfig)));
    assert_eq!(st.sync_mode, SyncMode::NotSynced);
    assert_eq!(st.tasks.as_ref().unwrap().len(), 1);
    assert_eq!(st.gist_id, Some("abc123".to_string()));
    assert!(st.github_pat.is_none());
}

#[test]
fn empty_token_is_incomplete() {
    let mut st = configured_state();
    st.github_pat = Some(String::new());
    assert!(!st.sync_config_complete());
    st.sync_mode = SyncMode::InSync;
    assert!(!st.check_sync_config());
    assert_eq!(st.sync_mode, SyncMode::NotSynced);
}

#[test]
fn push_forbidden_reports_rate_limit() {
    let mut st = configured_state();
    let target = st.begin_sync(false).unwrap();
    assert_eq!(st.sync_mode, SyncMode::Pushing);
    assert_eq!(target.token, "ghp_token");
    let outcome = push_outcome(403, "API rate limit exceeded".to_string(), Some("1700000000".to_string()));
    let msg = match &outcome {
        Err(e @ SyncError::Remote { status: 403, .. }) => e.message(),
        other => panic!("unexpected outcome {:?}", other),
    };
    assert_eq!(msg, "remote answered with status 403: API rate limit exceeded (rate limit resets at 1700000000)");
    st.finish_push(&outcome);
    assert_eq!(st.sync_mode, SyncMode::NotSynced);
}

#[test]
fn push_success_is_in_sync() {
    let mut st = configured_state();
    let _ = st.begin_sync(false).unwrap();
    let outcome = push_outcome(200, String::new(), None);
    assert!(outcome.is_ok());
    st.finish_push(&outcome);
    assert_eq!(st.sync_mode, SyncMode::InSync);
}

#[test]
fn requests_are_framed() {
    let target = SyncTarget {
        token: "ghp_x".to_string(),
        gist_id: "abc123".to_string(),
        file_name: "data.json".to_string(),
    };
    let get = pull_request(&target);
    assert_eq!(get.method, HttpMethod::Get);
    assert_eq!(get.url, "https://api.github.com/gists/abc123");
    assert_eq!(get.authorization, "Bearer ghp_x");
    assert_eq!(get.user_agent, "StayAhead");
    assert!(get.body.is_none());
    let patch = push_request(&target, "{\"a\":1}\n");
    assert_eq!(patch.method, HttpMethod::Patch);
    assert_eq!(patch.body.unwrap(), "{\"files\":{\"data.json\":{\"content\":\"{\\\"a\\\":1}\\n\"}}}");
}

#[test]
fn pull_answers() {
    let body = "{\"id\":\"abc123\",\"files\":{\"data.json\":{\"content\":\"{\\\"tasks\\\":null}\"}}}".to_string();
    assert_eq!(pull_outcome(200, body.clone(), None, "data.json").unwrap(), "{\"tasks\":null}");
    assert!(matches!(pull_outcome(200, body.clone(), None, "other.json"), Err(SyncError::MalformedDocument)));
    assert!(matches!(pull_outcome(200, "not json".to_string(), None, "data.json"), Err(SyncError::MalformedDocument)));
    assert!(matches!(pull_outcome(404, "Not Found".to_string(), None, "data.json"), Err(SyncError::Remote { status: 404, .. })));
}

#[test]
fn pull_replaces_state() {
    let mut remote = configured_state();
    remote.gist_file_name = Some("remote.json".to_string());
    remote.insert_task(sample_task(9));
    let pulled = SerializableState::for_storage(&remote);
    let mut st = configured_state();
    st.insert_task(sample_task(1));
    st.insert_task(sample_task(2));
    let _ = st.begin_sync(true).unwrap();
    assert_eq!(st.sync_mode, SyncMode::Pulling);
    assert!(st.finish_pull(Ok(pulled)).is_ok());
    assert_eq!(st.sync_mode, SyncMode::InSync);
    let tasks = st.tasks.as_ref().unwrap();
    assert_eq!(tasks.len(), 1);
    assert_eq!(tasks[0].id, 9);
    assert_eq!(st.gist_file_name, Some("remote.json".to_string()));
    assert_eq!(st.github_pat, Some("ghp_token".to_string()));
}

#[test]
fn failed_pull_keeps_state() {
    let mut st = configured_state();
    st.insert_task(sample_task(1));
    let _ = st.begin_sync(true).unwrap();
    let mut bad = SerializableState::for_storage(&st);
    bad.tasks.as_mut().unwrap()[0].end = "soon".to_string();
    let r = st.finish_pull(Ok(bad));
    assert!(matches!(r, Err(SyncError::Parse(ParseError::InvalidDate))));
    assert_eq!(st.sync_mode, SyncMode::Failed);
    assert_eq!(st.tasks.as_ref().unwrap().len(), 1);
    let r = st.finish_pull(Err(SyncError::Transport("offline".to_string())));
    assert_eq!(r.unwrap_err().message(), "network failure: offline");
    assert_eq!(st.sync_mode, SyncMode::Failed);
}

#[test]
fn sync_mode_transitions() {
    assert_eq!(SyncMode::InSync.next(SyncEvent::PushStarted), SyncMode::Pushing);
    assert_eq!(SyncMode::Failed.next(SyncEvent::PullStarted), SyncMode::Pulling);
    assert_eq!(SyncMode::Pulling.next(SyncEvent::Succeeded), SyncMode::InSync);
    assert_eq!(SyncMode::Pushing.next(SyncEvent::PushFailed), SyncMode::NotSynced);
    assert_eq!(SyncMode::Pulling.next(SyncEvent::PullFailed), SyncMode::Failed);
    assert_eq!(SyncMode::InSync.next(SyncEvent::ConfigIncomplete), SyncMode::NotSynced);
    assert!(SyncMode::Pushing.is_busy());
    assert!(!SyncMode::Failed.is_busy());
}

#[test]
fn decimal_digits() {
    assert_eq!(decimal_text(0), "0");
    assert_eq!(decimal_text(403), "403");
    assert_eq!(decimal_text(u64::MAX), u64::MAX.to_string());
}

#[test]
fn load_or_empty_reads_or_starts_empty() {
    let mut st = configured_state();
    st.insert_task(sample_task(4));
    st.sync_mode = SyncMode::InSync;
    let loaded = AppState::load_or_empty(Some(SerializableState::for_storage(&st)));
    assert_eq!(loaded.sync_mode, SyncMode::NotSynced);
    assert_eq!(loaded.github_pat, Some("ghp_token".to_string()));
    assert!(same(&loaded.tasks.unwrap()[0], &sample_task(4)));
    let mut broken = SerializableState::for_storage(&st);
    broken.tasks.as_mut().unwrap()[0].effective_dow = vec!["Mondays!".to_string()];
    let loaded = AppState::load_or_empty(Some(broken));
    assert!(loaded.tasks.is_none() && loaded.github_pat.is_none() && loaded.gist_id.is_none());
}

#[test]
fn task_reading_rejects_malformed_dates() {
    for bad in ["", "2024/01/01", "2024-13-01", "2024-1-1", "2024-02-30"] {
        let mut s = SerializableTask::from(&sample_task(1));
        s.end = bad.to_string();
        assert_eq!(MyTask::try_from(&s).unwrap_err(), ParseError::InvalidDate, "{}", bad);
    }
}

#[test]
fn task_reading_weekday_names_any_case() {
    let mut s = SerializableTask::from(&sample_task(1));
    s.effective_dow = vec!["MONDAY".to_string(), "fRi".to_string()];
    assert_eq!(MyTask::try_from(&s).unwrap().effective_dow, vec![Weekday::Mon, Weekday::Fri]);
    s.effective_dow = vec!["Mo".to_string()];
    assert_eq!(MyTask::try_from(&s).unwrap_err(), ParseError::InvalidWeekday);
}

#[test]
fn state_reading_errors() {
    let mut st = configured_state();
    st.insert_task(sample_task(1));
    st.insert_task(sample_task(2));
    let mut dup = SerializableState::from(&st);
    dup.tasks.as_mut().unwrap()[1].id = 1;
    dup.tasks.as_mut().unwrap()[1].count_accum = 7_000;
    let read = AppState::try_from(dup).unwrap();
    let tasks = read.tasks.as_ref().unwrap();
    assert_eq!(tasks.len(), 1);
    assert_eq!(tasks[0].id, 1);
    assert_eq!(tasks[0].count_accum, 7_000);
    assert!(read.is_wf());
    let mut bad = SerializableState::from(&st);
    bad.tasks.as_mut().unwrap()[1].effective_dow = vec!["Funday".to_string()];
    assert_eq!(AppState::try_from(bad).unwrap_err(), ParseError::InvalidWeekday);
    let mut bad = SerializableState::for_storage(&st);
    bad.tasks.as_mut().unwrap()[0].start = "2024-13-01".to_string();
    assert_eq!(AppState::from_storage(bad).unwrap_err(), ParseError::InvalidDate);
    assert!(st.is_wf());
    st.tasks.as_mut().unwrap()[1].id = 1;
    assert!(!st.is_wf());
}

#[test]
fn activity_lines_are_trimmed() {
    let acts = vec!["  a  ".to_string(), " \t ".to_string(), "b\r".to_string()];
    let t = new_activity_task(3, "Plan".to_string(), acts, date("2024-01-01"), &vec![Weekday::Mon]).unwrap();
    assert_eq!(t.daily_tasks, Some(vec!["a".to_string(), "b".to_string()]));
    assert_eq!(t.end.to_iso_string(), "2024-01-08");
    let t = new_activity_task(3, "Plan".to_string(), vec!["   ".to_string()], date("2024-01-01"), &vec![]).unwrap();
    assert_eq!(t.end, date("2024-01-01"));
}

#[test]
fn json_escapes_control_characters() {
    let target = SyncTarget {
        token: "t".to_string(),
        gist_id: "g".to_string(),
        file_name: "a\"b.json".to_string(),
    };
    let patch = push_request(&target, "x\u{1}\\y\t");
    assert_eq!(patch.body.unwrap(), "{\"files\":{\"a\\\"b.json\":{\"content\":\"x\\u0001\\\\y\\t\"}}}");
}

#[test]
fn repeated_ids_keep_the_last_task() {
    let mut st = configured_state();
    st.insert_task(sample_task(1));
    st.insert_task(sample_task(2));
    st.insert_task(sample_task(3));
    let mut doc = SerializableState::for_storage(&st);
    let tasks = doc.tasks.as_mut().unwrap();
    tasks[2].id = 1;
    tasks[2].unit = "pages".to_string();
    let loaded = AppState::load_or_empty(Some(doc));
    let tasks = loaded.tasks.as_ref().unwrap();
    assert_eq!(tasks.iter().map(|t| t.id).collect::<Vec<_>>(), vec![1, 2]);
    assert_eq!(tasks[0].unit, "pages");
    let mut doc = SerializableState::for_storage(&st);
    doc.tasks.as_mut().unwrap()[1].id = 3;
    let mut pulling = configured_state();
    let _ = pulling.begin_sync(true).unwrap();
    assert!(pulling.finish_pull(Ok(doc)).is_ok());
    assert_eq!(pulling.sync_mode, SyncMode::InSync);
    assert_eq!(pulling.tasks.as_ref().unwrap().iter().map(|t| t.id).collect::<Vec<_>>(), vec![1, 3]);
}

#[test]
fn removing_an_active_task_is_refused() {
    let mut st = AppState::empty();
    st.insert_task(sample_task(5));
    assert_eq!(st.remove_task(5), Err(UpdateError::NotArchived));
    assert_eq!(st.tasks.as_ref().unwrap().len(), 1);
}
