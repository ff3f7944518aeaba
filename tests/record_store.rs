use attendance_bot::{get_member_data, get_member_record, GetRecordError};

const STORE: &[u8] = b"bob,Bob B,R200,M\nalice,Alice A,R100,F\nalice,Alice Second,R101,M\n";

#[test]
fn finds_member_by_key() {
    let m = match get_member_data(STORE, "alice") {
        Ok(Some(m)) => m,
        _ => panic!("expected a member"),
    };
    assert_eq!(m.name, "Alice A");
    assert_eq!(m.roll_number, "R100");
    assert_eq!(m.gender, "F");
}

#[test]
fn first_match_wins() {
    let fields = match get_member_record(STORE, "alice") {
        Ok(Some(f)) => f,
        _ => panic!("expected a record"),
    };
    assert_eq!(fields, vec!["alice", "Alice A", "R100", "F"]);
}

#[test]
fn unknown_key_is_absent() {
    assert!(matches!(get_member_data(STORE, "carol"), Ok(None)));
    assert!(matches!(get_member_data(b"", "carol"), Ok(None)));
}

#[test]
fn key_must_match_whole_field() {
    assert!(matches!(get_member_data(STORE, "ali"), Ok(None)));
    assert!(matches!(get_member_data(STORE, "Alice A"), Ok(None)));
}

#[test]
fn short_matching_row_is_malformed() {
    let store: &[u8] = b"alice,Alice A,R100\n";
    assert!(matches!(get_member_data(store, "alice"), Err(GetRecordError::MalformedRecord)));
    assert!(matches!(get_member_data(store, "bob"), Ok(None)));
}

#[test]
fn short_matching_record_is_returned_whole() {
    let store: &[u8] = b"alice\nbob\n";
    match get_member_record(store, "alice") {
        Ok(Some(fields)) => assert_eq!(fields, vec!["alice"]),
        _ => panic!("expected the row"),
    }
    let store: &[u8] = b"alice,Alice A,R100\n";
    match get_member_record(store, "alice") {
        Ok(Some(fields)) => assert_eq!(fields, vec!["alice", "Alice A", "R100"]),
        _ => panic!("expected the row"),
    }
    assert!(matches!(get_member_data(b"alice\n", "alice"), Err(GetRecordError::MalformedRecord)));
}

#[test]
fn record_errors_convert() {
    let e: GetRecordError = std::io::Error::new(std::io::ErrorKind::NotFound, "gone").into();
    assert!(matches!(e, GetRecordError::IOError(_)));
}

#[test]
fn unreadable_row_is_csv_error() {
    let store: &[u8] = b"bob,Bob B,R200,M\nalice,Alice A\n";
    assert!(matches!(get_member_data(store, "alice"), Err(GetRecordError::CSVError(_))));
    assert!(matches!(get_member_data(store, "bob"), Ok(Some(_))));
}

#[test]
fn invalid_text_is_csv_error() {
    let store: &[u8] = b"\xff\xfe,x,y,z\n";
    assert!(matches!(get_member_data(store, "alice"), Err(GetRecordError::CSVError(_))));
}
