use sd_journal::JournalError;
use sd_journal::JournalReader;

#[test]
fn field_name_with_embedded_null_is_rejected_before_any_native_call() {
    let mut rdr = JournalReader::open(0).unwrap();
    let entry = rdr.next(1).unwrap().unwrap();
    let err = entry.get(&rdr, b"MES\0SAGE").unwrap_err();
    assert_eq!(err, JournalError::InvalidFieldName);
    let err = entry.get(&rdr, b"\0").unwrap_err();
    assert_eq!(err, JournalError::InvalidFieldName);
    let err = entry.get(&rdr, b"MESSAGE\0").unwrap_err();
    assert_eq!(err, JournalError::InvalidFieldName);
}

#[test]
fn query_carries_null_terminated_name() {
    let mut rdr = JournalReader::open(0).unwrap();
    let entry = rdr.next(1).unwrap().unwrap();
    let query = entry.get(&rdr, b"MESSAGE").unwrap();
    assert_eq!(query.cstr(), b"MESSAGE\0".to_vec());
}

#[test]
fn outcome_strips_the_key_prefix() {
    let mut rdr = JournalReader::open(0).unwrap();
    let entry = rdr.next(1).unwrap().unwrap();
    let query = entry.get(&rdr, b"MESSAGE").unwrap();
    let value = query.outcome(0, b"MESSAGE=disk full").unwrap().unwrap();
    assert_eq!(value, b"disk full".to_vec());
}

#[test]
fn outcome_treats_absent_field_as_none() {
    let mut rdr = JournalReader::open(0).unwrap();
    let entry = rdr.next(1).unwrap().unwrap();
    let query = entry.get(&rdr, b"OBJECT_PID").unwrap();
    assert_eq!(query.outcome(-2, b"").unwrap(), None);
}

#[test]
fn outcome_surfaces_other_failures_with_negated_status() {
    let mut rdr = JournalReader::open(0).unwrap();
    let entry = rdr.next(1).unwrap().unwrap();
    let query = entry.get(&rdr, b"MESSAGE").unwrap();
    let err = query.outcome(-99, b"").unwrap_err();
    assert_eq!(err, JournalError::FieldLookupFailed(99));
}

#[test]
fn copied_field_data_survives_the_next_advance() {
    let mut rdr = JournalReader::open(0).unwrap();
    let entry = rdr.next(1).unwrap().unwrap();
    let query = entry.get(&rdr, b"MESSAGE").unwrap();
    let copied = query.outcome(0, b"MESSAGE=kept").unwrap().unwrap();
    // the copy stays intact across the advance that invalidates the entry
    let _ = rdr.next(1);
    assert_eq!(copied, b"kept".to_vec());
}
