use attendance_bot::sheet_rows::{MAJOR_DIMENSION, VALUE_INPUT_OPTION};
use attendance_bot::{construct_input_data, day_sheet_name, todays_sheet_name, CalendarDate, MemberData, ValueRange};

fn date(year: i32, month: u32, day: u32) -> CalendarDate {
    CalendarDate { year, month, day }
}

#[test]
fn single_digit_day_is_trimmed() {
    assert_eq!(day_sheet_name(&date(2024, 6, 5)), Some(String::from("5 Jun")));
    assert_eq!(day_sheet_name(&date(2023, 1, 1)), Some(String::from("1 Jan")));
}

#[test]
fn two_digit_day() {
    assert_eq!(day_sheet_name(&date(2024, 12, 25)), Some(String::from("25 Dec")));
    assert_eq!(day_sheet_name(&date(2024, 2, 29)), Some(String::from("29 Feb")));
}

#[test]
fn nonexistent_date_has_no_sheet() {
    assert_eq!(day_sheet_name(&date(2023, 2, 29)), None);
    assert_eq!(day_sheet_name(&date(2024, 4, 31)), None);
    assert_eq!(day_sheet_name(&date(2024, 13, 1)), None);
    assert_eq!(day_sheet_name(&date(2024, 1, 0)), None);
}

#[test]
fn todays_sheet_has_a_name() {
    let name = todays_sheet_name().expect("today is a date");
    assert_eq!(name, name.trim());
    let parts: Vec<&str> = name.split(' ').collect();
    assert_eq!(parts.len(), 2);
    assert!(parts[0].parse::<u32>().is_ok());
    assert_eq!(parts[1].len(), 3);
}

#[test]
fn value_range_holds_row_cells() {
    let member = MemberData {
        name: String::from("Alice A"),
        gender: String::from("F"),
        roll_number: String::from("R100"),
    };
    let row = construct_input_data(42, member, None, None, None);
    let v = ValueRange::from_row(row, "5 Jun");
    assert_eq!(v.major_dimension, MAJOR_DIMENSION);
    assert_eq!(v.major_dimension, "ROWS");
    assert_eq!(v.range, "5 Jun!1:50");
    assert_eq!(v.values, vec!["42", "Alice A", "R100", "", "17:30", "21:00"]);
    assert_eq!(VALUE_INPUT_OPTION, "USER_ENTERED");
}

#[test]
fn value_range_serial_digits() {
    let member = MemberData {
        name: String::from("B"),
        gender: String::from("M"),
        roll_number: String::from("R"),
    };
    let row = construct_input_data(0, member, None, None, None);
    let v = ValueRange::from_row(row, "1 Jan");
    assert_eq!(v.values[0], "0");
    assert_eq!(v.values[5], "22:00");
}

#[test]
fn value_range_largest_serial() {
    let member = MemberData {
        name: String::from("C"),
        gender: String::from("F"),
        roll_number: String::from("R"),
    };
    let row = construct_input_data(u32::MAX, member, None, None, None);
    let v = ValueRange::from_row(row, "31 Dec");
    assert_eq!(v.values[0], "4294967295");
    assert_eq!(v.range, "31 Dec!1:50");
}

#[test]
fn day_sheet_name_of_tenth_day() {
    assert_eq!(day_sheet_name(&date(2024, 10, 10)), Some(String::from("10 Oct")));
    assert_eq!(day_sheet_name(&date(2000, 2, 29)), Some(String::from("29 Feb")));
    assert_eq!(day_sheet_name(&date(1900, 2, 29)), None);
}
