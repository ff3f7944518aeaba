use attendance_bot::{
    get_member_data, AttendanceCommand, CommandAction, CommandStage, ConnectOutcome, GetRecordError,
    ReadOutcome, ResolverAction, SerialResolver,
};

fn command() -> AttendanceCommand {
    AttendanceCommand::new(String::from("alice"), None, None, None)
}

fn reply_text(a: CommandAction) -> String {
    match a {
        CommandAction::Reply(t) => t,
        _ => panic!("expected a reply"),
    }
}

#[test]
fn unknown_member_reply_names_author() {
    let mut c = command();
    assert_eq!(reply_text(c.on_member(Ok(None))), "No data was found for alice.");
    assert!(matches!(c.stage, CommandStage::Done));
}

#[test]
fn unreadable_store_reply() {
    let mut c = command();
    let e = get_member_data(b"a,b,c,d\nalice,x\n", "alice");
    assert!(matches!(e, Err(GetRecordError::CSVError(_))));
    assert_eq!(reply_text(c.on_member(e)), "Failed to read CSV records.");
}

#[test]
fn unopenable_store_reply() {
    let mut c = command();
    let e = GetRecordError::IOError(std::io::Error::new(std::io::ErrorKind::NotFound, "missing"));
    assert_eq!(reply_text(c.on_member(Err(e))), "Failed to open file MemberData.csv.");
}

#[test]
fn credential_failure_replies() {
    let store: &[u8] = b"alice,Alice A,R100,F\n";
    let mut c = command();
    assert!(matches!(c.on_member(get_member_data(store, "alice")), CommandAction::Connect));
    assert_eq!(reply_text(c.on_connect(ConnectOutcome::CredentialsInvalid)), "Failed to validate credentials");
    let mut c = command();
    c.on_member(get_member_data(store, "alice"));
    assert_eq!(reply_text(c.on_connect(ConnectOutcome::CredentialsUnreadable)), "Failed to read SA-C file.");
}

#[test]
fn serial_failure_reply() {
    let store: &[u8] = b"alice,Alice A,R100,F\n";
    let mut c = command();
    c.on_member(get_member_data(store, "alice"));
    assert!(matches!(c.on_connect(ConnectOutcome::Connected), CommandAction::ResolveSerial));
    assert_eq!(reply_text(c.on_serial(None)), "Failed to get serial number");
}

#[test]
fn end_to_end_existing_day_with_three_rows() {
    let store: &[u8] = b"alice,Alice A,R100,F\n";
    let mut c = command();
    assert!(matches!(c.on_member(get_member_data(store, "alice")), CommandAction::Connect));
    assert!(matches!(c.on_connect(ConnectOutcome::Connected), CommandAction::ResolveSerial));
    let mut r = SerialResolver::new(String::from("5 Jun"), 0);
    let serial = match r.on_read(ReadOutcome::Values(Some(3))) {
        ResolverAction::Finish(s) => s,
        ResolverAction::Duplicate(_) => panic!("the sheet exists"),
    };
    assert_eq!(serial, Some(3));
    let row = match c.on_serial(serial) {
        CommandAction::Insert(row) => row,
        _ => panic!("expected a row"),
    };
    assert_eq!(row.serial_number, 3);
    assert_eq!(row.name, "Alice A");
    assert_eq!(row.roll_number, "R100");
    assert_eq!(row.seat_number, "");
    assert_eq!(row.time_in, "17:30");
    assert_eq!(row.time_out, "21:00");
    assert!(matches!(c.stage, CommandStage::Inserting));
    assert_eq!(c.on_insert(true), "Okay. Inserted row: 3 | Alice A | R100 |  | 17:30 | 21:00");
    assert!(matches!(c.stage, CommandStage::Done));
}

#[test]
fn insert_failure_reply() {
    let store: &[u8] = b"alice,Alice A,R100,F\n";
    let mut c = AttendanceCommand::new(String::from("alice"), Some(String::from("S1")), None, None);
    c.on_member(get_member_data(store, "alice"));
    c.on_connect(ConnectOutcome::Connected);
    match c.on_serial(Some(1)) {
        CommandAction::Insert(row) => assert_eq!(row.seat_number, "S1"),
        _ => panic!("expected a row"),
    }
    assert_eq!(c.on_insert(false), "Failed to insert field.");
}

#[test]
fn confirmation_lists_overrides() {
    let store: &[u8] = b"bob,Bob B,R200,M\n";
    let mut c = AttendanceCommand::new(
        String::from("bob"),
        Some(String::from("S9")),
        Some(String::from("18:00")),
        None,
    );
    c.on_member(get_member_data(store, "bob"));
    c.on_connect(ConnectOutcome::Connected);
    assert!(matches!(c.on_serial(Some(12)), CommandAction::Insert(_)));
    assert_eq!(c.on_insert(true), "Okay. Inserted row: 12 | Bob B | R200 | S9 | 18:00 | 22:00");
}
