//! The attendance command: from the member lookup to the reply.
//!
//! The command only decides. Its caller looks the member up, connects to
//! the spreadsheet backend, resolves the serial number and appends the row,
//! handing each outcome to the command and doing what it asks next.

use vstd::prelude::*;
use crate::entry::{construct_input_data, entry_of, MemberData, Row};
use crate::records::GetRecordError;
use crate::sheet_rows::{cells_of, row_cells};

verus! {

pub const NOT_FOUND_PREFIX: &'static str = "No data was found for ";

pub const NOT_FOUND_SUFFIX: &'static str = ".";

pub const RECORDS_UNREADABLE: &'static str = "Failed to read CSV records.";

pub const STORE_UNOPENABLE: &'static str = "Failed to open file MemberData.csv.";

pub const CREDENTIALS_INVALID: &'static str = "Failed to validate credentials";

pub const CREDENTIALS_UNREADABLE: &'static str = "Failed to read SA-C file.";

pub const SERIAL_UNAVAILABLE: &'static str = "Failed to get serial number";

pub const INSERTED: &'static str = "Okay. Inserted row: ";

pub const CELL_SEPARATOR: &'static str = " | ";

pub const INSERT_FAILED: &'static str = "Failed to insert field.";

/// How the connection to the spreadsheet backend went.
pub enum ConnectOutcome {
    Connected,
    /// The credentials could not be validated.
    CredentialsInvalid,
    /// The credentials file could not be read.
    CredentialsUnreadable,
}

/// Where a command stands.
pub enum CommandStage {
    LookingUp,
    Connecting,
    Resolving,
    Inserting,
    Done,
}

/// What the command asks of its caller next.
pub enum CommandAction {
    /// Connect to the spreadsheet backend.
    Connect,
    /// Resolve the serial number of the next row of today's sheet.
    ResolveSerial,
    /// Append this row to today's sheet.
    Insert(Row),
    /// Reply with this text; the command is over.
    Reply(String),
}

/// One invocation of the attendance command.
pub struct AttendanceCommand {
    pub author: String,
    pub seat_number: Option<String>,
    pub time_in: Option<String>,
    pub time_out: Option<String>,
    pub member: Option<MemberData>,
    pub inserted: Option<Row>,
    pub stage: CommandStage,
}

/// The action is the reply `text`.
pub open spec fn replies(a: CommandAction, text: Seq<char>) -> bool {
    a matches CommandAction::Reply(t) && t@ == text
}

/// The reply to a member lookup that found no member with the key.
pub open spec fn not_found_reply(author: Seq<char>) -> Seq<char> {
    NOT_FOUND_PREFIX@ + author + NOT_FOUND_SUFFIX@
}

/// The texts one after another, with `sep` between each two.
pub open spec fn joined(cells: Seq<Seq<char>>, sep: Seq<char>) -> Seq<char>
    decreases cells.len(),
{
    if cells.len() == 0 {
        Seq::empty()
    } else if cells.len() == 1 {
        cells[0]
    } else {
        joined(cells.drop_last(), sep) + sep + cells.last()
    }
}

/// The reply that confirms the append of `row`: its cells, in the sheet's
/// column order.
pub open spec fn confirmation(row: Row) -> Seq<char> {
    INSERTED@ + joined(cells_of(row), CELL_SEPARATOR@)
}

fn join_cells(cells: &Vec<String>, sep: &str) -> (r: String)
    ensures
        r@ == joined(cells@.map_values(|c: String| c@), sep@),
{
    let ghost all = cells@.map_values(|c: String| c@);
    let n = cells.len();
    if n == 0 {
        return String::new();
    }
    let mut acc = cells[0].clone();
    let mut i: usize = 1;
    assert(all.subrange(0, 1).drop_last() =~= Seq::<Seq<char>>::empty());
    while i < n
        invariant
            n == cells@.len(),
            all == cells@.map_values(|c: String| c@),
            1 <= i <= n,
            acc@ == joined(all.subrange(0, i as int), sep@),
        decreases n - i,
    {
        assert(all.subrange(0, i + 1).drop_last() =~= all.subrange(0, i as int));
        acc = acc.concat(sep).concat(cells[i].as_str());
        i = i + 1;
    }
    assert(all.subrange(0, n as int) =~= all);
    acc
}

impl AttendanceCommand {
    /// The command as invoked by `author` with the optional overrides.
    pub fn new(
        author: String,
        seat_number: Option<String>,
        time_in: Option<String>,
        time_out: Option<String>,
    ) -> (r: AttendanceCommand)
        ensures
            r.author == author,
            r.seat_number == seat_number,
            r.time_in == time_in,
            r.time_out == time_out,
            r.member is None,
            r.inserted is None,
            r.stage is LookingUp,
    {
        AttendanceCommand {
            author,
            seat_number,
            time_in,
            time_out,
            member: None,
            inserted: None,
            stage: CommandStage::LookingUp,
        }
    }

    /// Takes in the outcome of the member lookup by the author's name. A
    /// malformed record store is a defect of the deployment that the caller
    /// stops on before this.
    pub fn on_member(&mut self, found: Result<Option<MemberData>, GetRecordError>) -> (r: CommandAction)
        requires
            old(self).stage is LookingUp,
            !(found matches Err(GetRecordError::MalformedRecord)),
        ensures
            final(self).author == old(self).author,
            final(self).seat_number == old(self).seat_number,
            final(self).time_in == old(self).time_in,
            final(self).time_out == old(self).time_out,
            match found {
                Ok(Some(m)) => final(self).stage is Connecting && final(self).member == Some(m)
                    && r is Connect,
                Ok(None) => final(self).stage is Done && replies(r, not_found_reply(old(self).author@)),
                Err(GetRecordError::CSVError(_)) => final(self).stage is Done && replies(r, RECORDS_UNREADABLE@),
                Err(_) => final(self).stage is Done && replies(r, STORE_UNOPENABLE@),
            },
    {
        match found {
            Ok(Some(m)) => {
                self.member = Some(m);
                self.stage = CommandStage::Connecting;
                CommandAction::Connect
            },
            Ok(None) => {
                self.stage = CommandStage::Done;
                let text = String::from_str(NOT_FOUND_PREFIX).concat(self.author.as_str()).concat(
                    NOT_FOUND_SUFFIX,
                );
                CommandAction::Reply(text)
            },
            Err(GetRecordError::CSVError(_)) => {
                self.stage = CommandStage::Done;
                CommandAction::Reply(String::from_str(RECORDS_UNREADABLE))
            },
            Err(_) => {
                self.stage = CommandStage::Done;
                CommandAction::Reply(String::from_str(STORE_UNOPENABLE))
            },
        }
    }

    /// Takes in the outcome of the connection to the backend.
    pub fn on_connect(&mut self, outcome: ConnectOutcome) -> (r: CommandAction)
        requires
            old(self).stage is Connecting,
        ensures
            final(self).author == old(self).author,
            final(self).seat_number == old(self).seat_number,
            final(self).time_in == old(self).time_in,
            final(self).time_out == old(self).time_out,
            final(self).member == old(self).member,
            match outcome {
                ConnectOutcome::Connected => final(self).stage is Resolving && r is ResolveSerial,
                ConnectOutcome::CredentialsInvalid => final(self).stage is Done && replies(r, CREDENTIALS_INVALID@),
                ConnectOutcome::CredentialsUnreadable => final(self).stage is Done && replies(r, CREDENTIALS_UNREADABLE@),
            },
    {
        match outcome {
            ConnectOutcome::Connected => {
                self.stage = CommandStage::Resolving;
                CommandAction::ResolveSerial
            },
            ConnectOutcome::CredentialsInvalid => {
                self.stage = CommandStage::Done;
                CommandAction::Reply(String::from_str(CREDENTIALS_INVALID))
            },
            ConnectOutcome::CredentialsUnreadable => {
                self.stage = CommandStage::Done;
                CommandAction::Reply(String::from_str(CREDENTIALS_UNREADABLE))
            },
        }
    }

    /// Takes in the resolved serial number, if there is one; with one, the
    /// row to append is assembled from it, the member and the overrides.
    pub fn on_serial(&mut self, serial: Option<u32>) -> (r: CommandAction)
        requires
            old(self).stage is Resolving,
            old(self).member is Some,
        ensures
            final(self).author == old(self).author,
            match serial {
                Some(n) => final(self).stage is Inserting && (r matches CommandAction::Insert(row)
                    && final(self).inserted == Some(row) && entry_of(
                        n,
                        old(self).member->Some_0,
                        old(self).seat_number,
                        old(self).time_in,
                        old(self).time_out,
                        row,
                    )),
                None => final(self).stage is Done && replies(r, SERIAL_UNAVAILABLE@),
            },
    {
        match serial {
            Some(n) => {
                self.stage = CommandStage::Inserting;
                let member = self.member.take().unwrap();
                let row = construct_input_data(
                    n,
                    member,
                    self.seat_number.take(),
                    self.time_in.take(),
                    self.time_out.take(),
                );
                self.inserted = Some(row.clone());
                CommandAction::Insert(row)
            },
            None => {
                self.stage = CommandStage::Done;
                CommandAction::Reply(String::from_str(SERIAL_UNAVAILABLE))
            },
        }
    }

    /// Takes in whether the row was appended, and gives the reply: on
    /// success, a confirmation that lists the cells of the appended row.
    pub fn on_insert(&mut self, appended: bool) -> (r: String)
        requires
            old(self).stage is Inserting,
            old(self).inserted is Some,
        ensures
            final(self).author == old(self).author,
            final(self).stage is Done,
            r@ == (if appended {
                confirmation(old(self).inserted->Some_0)
            } else {
                INSERT_FAILED@
            }),
    {
        self.stage = CommandStage::Done;
        if appended {
            let row = self.inserted.take().unwrap();
            let cells = row_cells(row);
            let listed = join_cells(&cells, CELL_SEPARATOR);
            String::from_str(INSERTED).concat(listed.as_str())
        } else {
            String::from_str(INSERT_FAILED)
        }
    }
}

} // verus!
