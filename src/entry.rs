//! Assembly of an attendance entry from a member record and optional overrides.

use vstd::prelude::*;

verus! {

/// Default clock time at which a member arrives.
pub const DEFAULT_TIME_IN: &'static str = "17:30";

/// Default clock time at which a member of category `M` leaves. One
/// deployment used "23:00" here; this library keeps "22:00".
pub const DEFAULT_TIME_OUT_M: &'static str = "22:00";

/// Default clock time at which any other member leaves.
pub const DEFAULT_TIME_OUT_OTHER: &'static str = "21:00";

/// The category code that selects the later default leaving time.
pub const LATE_CATEGORY: &'static str = "M";

/// The static profile of a member, as read from the record store.
pub struct MemberData {
    pub name: String,
    pub gender: String,
    pub roll_number: String,
}

/// One attendance row, in the order in which its cells are written.
pub struct Row {
    pub serial_number: u32,
    pub name: String,
    pub roll_number: String,
    pub seat_number: String,
    pub time_in: String,
    pub time_out: String,
}

impl Clone for Row {
    fn clone(&self) -> (r: Row)
        ensures
            r == *self,
    {
        Row {
            serial_number: self.serial_number,
            name: self.name.clone(),
            roll_number: self.roll_number.clone(),
            seat_number: self.seat_number.clone(),
            time_in: self.time_in.clone(),
            time_out: self.time_out.clone(),
        }
    }
}

/// The given value, or the default when none is given.
pub open spec fn or_default(o: Option<String>, default: Seq<char>) -> Seq<char> {
    match o {
        Some(s) => s@,
        None => default,
    }
}

/// The arrival time written for an optional override.
pub open spec fn time_in_of(time_in: Option<String>) -> Seq<char> {
    or_default(time_in, DEFAULT_TIME_IN@)
}

/// The default leaving time of a category.
pub open spec fn default_time_out(gender: Seq<char>) -> Seq<char> {
    if gender == LATE_CATEGORY@ {
        DEFAULT_TIME_OUT_M@
    } else {
        DEFAULT_TIME_OUT_OTHER@
    }
}

/// The leaving time written for an optional override and a category.
pub open spec fn time_out_of(time_out: Option<String>, gender: Seq<char>) -> Seq<char> {
    or_default(time_out, default_time_out(gender))
}

/// The row assembled from a serial number, a member record and the overrides.
pub open spec fn entry_of(
    serial_number: u32,
    member: MemberData,
    seat_number: Option<String>,
    time_in: Option<String>,
    time_out: Option<String>,
    row: Row,
) -> bool {
    &&& row.serial_number == serial_number
    &&& row.name@ == member.name@
    &&& row.roll_number@ == member.roll_number@
    &&& row.seat_number@ == or_default(seat_number, Seq::empty())
    &&& row.time_in@ == time_in_of(time_in)
    &&& row.time_out@ == time_out_of(time_out, member.gender@)
}

/// Assembly is a function of its inputs: two rows assembled from the same
/// serial number, record and overrides hold the same values.
pub proof fn lemma_entry_deterministic(
    serial_number: u32,
    member: MemberData,
    seat_number: Option<String>,
    time_in: Option<String>,
    time_out: Option<String>,
    a: Row,
    b: Row,
)
    requires
        entry_of(serial_number, member, seat_number, time_in, time_out, a),
        entry_of(serial_number, member, seat_number, time_in, time_out, b),
    ensures
        a.serial_number == b.serial_number,
        a.name@ == b.name@,
        a.roll_number@ == b.roll_number@,
        a.seat_number@ == b.seat_number@,
        a.time_in@ == b.time_in@,
        a.time_out@ == b.time_out@,
{
}

/// The defaults: no seat gives the empty seat, no arrival time gives
/// 17:30, and no leaving time gives 22:00 for category `M` and 21:00 for
/// any other category.
pub proof fn lemma_entry_defaults(serial_number: u32, member: MemberData, row: Row)
    requires
        entry_of(serial_number, member, None, None, None, row),
    ensures
        row.seat_number@ == Seq::<char>::empty(),
        row.time_in@ == DEFAULT_TIME_IN@,
        member.gender@ == LATE_CATEGORY@ ==> row.time_out@ == DEFAULT_TIME_OUT_M@,
        member.gender@ != LATE_CATEGORY@ ==> row.time_out@ == DEFAULT_TIME_OUT_OTHER@,
{
}

fn string_of(s: &str) -> (r: String)
    ensures
        r@ == s@,
{
    String::from_str(s)
}

/// Fills in the arrival and leaving times, taking the defaults where no
/// time is given; the default leaving time depends on the category.
pub fn set_time(time_in_opt: Option<String>, time_out_opt: Option<String>, gender: String) -> (r: (
    String,
    String,
))
    ensures
        r.0@ == time_in_of(time_in_opt),
        r.1@ == time_out_of(time_out_opt, gender@),
{
    let time_in = match time_in_opt {
        Some(t) => t,
        None => string_of(DEFAULT_TIME_IN),
    };
    let time_out = match time_out_opt {
        Some(t) => t,
        None => {
            let late = string_of(LATE_CATEGORY);
            if gender == late {
                string_of(DEFAULT_TIME_OUT_M)
            } else {
                string_of(DEFAULT_TIME_OUT_OTHER)
            }
        },
    };
    (time_in, time_out)
}

/// Groups a serial number, a member record and the optional overrides into
/// the row to append; an omitted seat is written as the empty string.
pub fn construct_input_data(
    serial_number: u32,
    member_data: MemberData,
    seat_number: Option<String>,
    time_in: Option<String>,
    time_out: Option<String>,
) -> (r: Row)
    ensures
        entry_of(serial_number, member_data, seat_number, time_in, time_out, r),
{
    let (time_in_text, time_out_text) = set_time(time_in, time_out, member_data.gender);
    let seat = match seat_number {
        Some(s) => s,
        None => String::new(),
    };
    Row {
        serial_number,
        name: member_data.name,
        roll_number: member_data.roll_number,
        seat_number: seat,
        time_in: time_in_text,
        time_out: time_out_text,
    }
}

} // verus!
