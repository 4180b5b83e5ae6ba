use sd_journal::Journal;
use sd_journal::JournalReader;
use sd_journal::Priority;

static INFO_STRING: &str = "Hello from sd_journal integration test";
static ERROR_STRING: &str = "Watch out, its sd_journal integration test!";

// Submits a record and plays the journal's part with the submitted buffers:
// the journal stores `KEY=VALUE` buffers whole and hands them back whole, so
// reading the matching entry's field must yield the submitted value.
fn send_and_read_back(pri: Priority, msg: &[u8]) -> (Vec<u8>, Vec<u8>) {
    let mut jrn = Journal::new();
    let bufs = jrn.send(pri, msg);

    let mut rdr = jrn.read(0).unwrap();
    let entry = rdr.next(1).unwrap().unwrap();
    let message = entry
        .get(&rdr, b"MESSAGE")
        .unwrap()
        .outcome(0, &bufs[1])
        .unwrap()
        .unwrap();
    let priority = entry
        .get(&rdr, b"PRIORITY")
        .unwrap()
        .outcome(0, &bufs[0])
        .unwrap()
        .unwrap();
    assert!(rdr.close());
    (priority, message)
}

#[test]
fn test_journal_send() {
    let (priority, message) = send_and_read_back(Priority::Info, INFO_STRING.as_bytes());
    assert_eq!(message, INFO_STRING.as_bytes().to_vec());
    assert_eq!(priority, b"6".to_vec());
}

#[test]
fn test_journal_error() {
    let (priority, message) = send_and_read_back(Priority::Error, ERROR_STRING.as_bytes());
    assert_eq!(message, ERROR_STRING.as_bytes().to_vec());
    assert_eq!(priority, b"3".to_vec());
}

#[test]
fn info_arithmetic_message_round_trip() {
    let msg = format!("2 + 2 = {}", 2 + 2);
    let (priority, message) = send_and_read_back(Priority::Info, msg.as_bytes());
    assert_eq!(message, b"2 + 2 = 4".to_vec());
    assert_eq!(priority, b"6".to_vec());
}

#[test]
fn error_disk_full_round_trip() {
    let (priority, message) = send_and_read_back(Priority::Error, b"disk full");
    assert_eq!(message, b"disk full".to_vec());
    assert_eq!(priority, b"3".to_vec());
}

#[test]
fn empty_segment_yields_none_then_nothing() {
    let jrn = Journal::new();
    let mut rdr = jrn.read(0).unwrap();
    assert_eq!(rdr.next(0), Ok(None));
    assert!(rdr.close());
}
