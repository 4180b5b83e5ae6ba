use sd_journal::enabled;
use sd_journal::priority_for;
use sd_journal::Journal;
use sd_journal::LogLevel;
use sd_journal::Priority;

#[test]
fn every_level_but_trace_is_enabled() {
    assert!(enabled(LogLevel::Error));
    assert!(enabled(LogLevel::Warn));
    assert!(enabled(LogLevel::Info));
    assert!(enabled(LogLevel::Debug));
    assert!(!enabled(LogLevel::Trace));
}

#[test]
fn levels_map_to_matching_priorities() {
    assert_eq!(priority_for(LogLevel::Error), Priority::Error);
    assert_eq!(priority_for(LogLevel::Warn), Priority::Warning);
    assert_eq!(priority_for(LogLevel::Info), Priority::Info);
    assert_eq!(priority_for(LogLevel::Debug), Priority::Debug);
}

#[test]
fn log_formats_like_send_at_the_mapped_priority() {
    let mut jrn = Journal::new();
    let bufs = jrn.log(LogLevel::Warn, b"something strange happened");
    assert_eq!(bufs.len(), 2);
    assert_eq!(bufs[0], b"PRIORITY=4".to_vec());
    assert_eq!(bufs[1], b"MESSAGE=something strange happened".to_vec());
}
