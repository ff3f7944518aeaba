//! Attendance bookkeeping for a chat command: member lookup in a flat record
//! store, serial-number resolution against per-day sheets, and assembly of
//! the row that is appended.

pub mod entry;
pub mod text;
pub mod resolver;
pub mod records;
pub mod calendar;
pub mod sheet_rows;
pub mod command;

pub use entry::{construct_input_data, set_time, MemberData, Row};
pub use text::contains_text;
pub use command::{AttendanceCommand, CommandAction, CommandStage, ConnectOutcome};
pub use sheet_rows::ValueRange;
pub use calendar::{day_sheet_name, todays_sheet_name, CalendarDate};
pub use records::{find_record, get_member_data, get_member_record, GetRecordError};
pub use resolver::{DuplicateSheet, ReadOutcome, ResolverAction, ResolverState, SerialResolver};
