use sd_journal::submit_outcome;
use sd_journal::Journal;
use sd_journal::JournalError;
use sd_journal::Priority;

#[test]
fn send_formats_priority_and_message() {
    let mut jrn = Journal::new();
    let bufs = jrn.send(Priority::Info, b"Hello, world!");
    assert_eq!(bufs.len(), 2);
    assert_eq!(bufs[0], b"PRIORITY=6".to_vec());
    assert_eq!(bufs[1], b"MESSAGE=Hello, world!".to_vec());
}

#[test]
fn send_allows_empty_and_multiline_messages() {
    let mut jrn = Journal::new();
    let bufs = jrn.send(Priority::Debug, b"");
    assert_eq!(bufs[1], b"MESSAGE=".to_vec());
    let bufs = jrn.send(Priority::Debug, b"line one\nline two");
    assert_eq!(bufs[1], b"MESSAGE=line one\nline two".to_vec());
}

#[test]
fn send_reuses_buffers_across_submissions() {
    let mut jrn = Journal::new();
    let first = jrn.send(Priority::Notice, b"first");
    assert_eq!(first[1], b"MESSAGE=first".to_vec());
    let second = jrn.send(Priority::Warning, b"second");
    assert_eq!(second[0], b"PRIORITY=4".to_vec());
    assert_eq!(second[1], b"MESSAGE=second".to_vec());
}

#[test]
fn with_object_pid_adds_third_buffer() {
    let mut jrn = Journal::with_object_pid(4096);
    let bufs = jrn.send(Priority::Crit, b"on behalf");
    assert_eq!(bufs.len(), 3);
    assert_eq!(bufs[0], b"PRIORITY=2".to_vec());
    assert_eq!(bufs[1], b"MESSAGE=on behalf".to_vec());
    assert_eq!(bufs[2], b"OBJECT_PID=4096".to_vec());
}

#[test]
fn object_pid_decimal_edges() {
    let mut jrn = Journal::with_object_pid(0);
    let bufs = jrn.send(Priority::Info, b"x");
    assert_eq!(bufs[2], b"OBJECT_PID=0".to_vec());
    let mut jrn = Journal::with_object_pid(u32::MAX);
    let bufs = jrn.send(Priority::Info, b"x");
    assert_eq!(bufs[2], b"OBJECT_PID=4294967295".to_vec());
}

#[test]
fn priority_codes_cover_all_severities() {
    assert_eq!(Priority::Emerg.code(), 0);
    assert_eq!(Priority::Alert.code(), 1);
    assert_eq!(Priority::Crit.code(), 2);
    assert_eq!(Priority::Error.code(), 3);
    assert_eq!(Priority::Warning.code(), 4);
    assert_eq!(Priority::Notice.code(), 5);
    assert_eq!(Priority::Info.code(), 6);
    assert_eq!(Priority::Debug.code(), 7);
}

#[test]
fn every_priority_formats_its_code() {
    let cases = vec![
        (Priority::Emerg, b"PRIORITY=0".to_vec()),
        (Priority::Alert, b"PRIORITY=1".to_vec()),
        (Priority::Crit, b"PRIORITY=2".to_vec()),
        (Priority::Error, b"PRIORITY=3".to_vec()),
        (Priority::Warning, b"PRIORITY=4".to_vec()),
        (Priority::Notice, b"PRIORITY=5".to_vec()),
        (Priority::Info, b"PRIORITY=6".to_vec()),
        (Priority::Debug, b"PRIORITY=7".to_vec()),
    ];
    let mut jrn = Journal::new();
    for (pri, expected) in cases {
        let bufs = jrn.send(pri, b"m");
        assert_eq!(bufs[0], expected);
    }
}

#[test]
fn submit_outcome_accepts_zero() {
    assert_eq!(submit_outcome(0), Ok(()));
}

#[test]
fn submit_outcome_surfaces_nonzero_status_unmodified() {
    assert_eq!(submit_outcome(-22), Err(JournalError::SubmitFailed(-22)));
    assert_eq!(submit_outcome(7), Err(JournalError::SubmitFailed(7)));
}
