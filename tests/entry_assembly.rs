use attendance_bot::{construct_input_data, set_time, MemberData};

fn member(gender: &str) -> MemberData {
    MemberData {
        name: String::from("Alice A"),
        gender: String::from(gender),
        roll_number: String::from("R100"),
    }
}

#[test]
fn set_time_defaults_for_other_category() {
    let (time_in, time_out) = set_time(None, None, String::from("F"));
    assert_eq!(time_in, "17:30");
    assert_eq!(time_out, "21:00");
}

#[test]
fn set_time_defaults_for_late_category() {
    let (time_in, time_out) = set_time(None, None, String::from("M"));
    assert_eq!(time_in, "17:30");
    assert_eq!(time_out, "22:00");
}

#[test]
fn set_time_keeps_given_times() {
    let (time_in, time_out) =
        set_time(Some(String::from("18:05")), Some(String::from("20:15")), String::from("M"));
    assert_eq!(time_in, "18:05");
    assert_eq!(time_out, "20:15");
}

#[test]
fn set_time_category_match_is_exact() {
    let (_, time_out) = set_time(None, None, String::from("m"));
    assert_eq!(time_out, "21:00");
    let (_, time_out) = set_time(None, None, String::from(""));
    assert_eq!(time_out, "21:00");
}

#[test]
fn construct_input_data_defaults() {
    let row = construct_input_data(3, member("F"), None, None, None);
    assert_eq!(row.serial_number, 3);
    assert_eq!(row.name, "Alice A");
    assert_eq!(row.roll_number, "R100");
    assert_eq!(row.seat_number, "");
    assert_eq!(row.time_in, "17:30");
    assert_eq!(row.time_out, "21:00");
}

#[test]
fn construct_input_data_overrides() {
    let row = construct_input_data(
        7,
        member("M"),
        Some(String::from("B12")),
        Some(String::from("09:00")),
        None,
    );
    assert_eq!(row.serial_number, 7);
    assert_eq!(row.seat_number, "B12");
    assert_eq!(row.time_in, "09:00");
    assert_eq!(row.time_out, "22:00");
}

#[test]
fn construct_input_data_is_deterministic() {
    let a = construct_input_data(4, member("M"), Some(String::from("A1")), None, None);
    let b = construct_input_data(4, member("M"), Some(String::from("A1")), None, None);
    assert_eq!(a.serial_number, b.serial_number);
    assert_eq!(a.name, b.name);
    assert_eq!(a.roll_number, b.roll_number);
    assert_eq!(a.seat_number, b.seat_number);
    assert_eq!(a.time_in, b.time_in);
    assert_eq!(a.time_out, b.time_out);
}

#[test]
fn row_clone_keeps_values() {
    let a = construct_input_data(2, member("F"), Some(String::from("C3")), None, None);
    let b = a.clone();
    assert_eq!(b.serial_number, 2);
    assert_eq!(b.seat_number, "C3");
    assert_eq!(b.time_out, "21:00");
}
