//! The serial-number resolver: how many rows today's sheet holds, creating
//! the sheet from a template when the day has none yet.
//!
//! The resolver only decides. The caller reads the range that `range` names,
//! hands the answer to `on_read`, performs the duplication that it may ask
//! for, and hands that outcome to `on_duplicate`.

use vstd::prelude::*;
use crate::calendar::{sheet_name_of, CalendarDate};
use crate::text::{contains_text, occurs_in};

verus! {

/// The fragment of a rejected read's error text that says the named sheet
/// does not exist.
pub const UNPARSEABLE_RANGE: &'static str = "Unable to parse range";

/// The rows of a day sheet that a read covers, after the sheet's name.
pub const ROW_SPAN: &'static str = "!1:50";

/// Where a newly created day sheet is placed in the list of sheets.
pub const NEW_SHEET_INDEX: i32 = 1;

/// What the backend answered to the read of a day sheet's rows.
pub enum ReadOutcome {
    /// The read succeeded; the number of rows of its values, if it had any.
    Values(Option<u32>),
    /// The backend rejected the request with this error text.
    BadRequest(String),
    /// The read failed for any other reason.
    Failed,
}

/// A request to copy the template sheet into a new sheet.
pub struct DuplicateSheet {
    pub insert_sheet_index: i32,
    pub new_sheet_name: String,
    pub source_sheet_id: i32,
}

/// Where a resolution stands.
pub enum ResolverState {
    /// The rows of the day sheet are being read.
    Requesting,
    /// The day sheet is missing and is being created.
    Creating,
    /// The serial number is known.
    Resolved(u32),
    /// No serial number can be given.
    Failed,
}

/// What the resolver asks of its caller after a read.
pub enum ResolverAction {
    /// Duplicate the template, then report the outcome to `on_duplicate`.
    Duplicate(DuplicateSheet),
    /// The resolution is over, with this serial number if there is one.
    Finish(Option<u32>),
}

/// One resolution of the serial number for one day sheet.
pub struct SerialResolver {
    pub sheet_name: String,
    pub template_sheet_id: i32,
    pub state: ResolverState,
}

/// The read was rejected because the day sheet does not exist.
pub open spec fn is_missing_sheet(outcome: ReadOutcome) -> bool {
    match outcome {
        ReadOutcome::BadRequest(text) => occurs_in(text@, UNPARSEABLE_RANGE@),
        _ => false,
    }
}

/// The state that a read's outcome leads to.
pub open spec fn state_after_read(outcome: ReadOutcome) -> ResolverState {
    match outcome {
        ReadOutcome::Values(Some(n)) => ResolverState::Resolved(n),
        ReadOutcome::Values(None) => ResolverState::Failed,
        ReadOutcome::BadRequest(text) => if occurs_in(text@, UNPARSEABLE_RANGE@) {
            ResolverState::Creating
        } else {
            ResolverState::Failed
        },
        ReadOutcome::Failed => ResolverState::Failed,
    }
}

/// The state that the outcome of the duplication leads to: a new sheet's
/// first row is row one.
pub open spec fn state_after_duplicate(succeeded: bool) -> ResolverState {
    if succeeded {
        ResolverState::Resolved(1)
    } else {
        ResolverState::Failed
    }
}

/// The serial number that a final state gives.
pub open spec fn serial_of(state: ResolverState) -> Option<u32> {
    match state {
        ResolverState::Resolved(n) => Some(n),
        _ => None,
    }
}

/// The duplication that creates the sheet `name` from `template`.
pub open spec fn duplicates(d: DuplicateSheet, name: Seq<char>, template: i32) -> bool {
    &&& d.insert_sheet_index == NEW_SHEET_INDEX
    &&& d.new_sheet_name@ == name
    &&& d.source_sheet_id == template
}

/// The action that follows the move to `state` of a resolver for the sheet
/// `name` with the template `template`.
pub open spec fn action_is(
    action: ResolverAction,
    state: ResolverState,
    name: Seq<char>,
    template: i32,
) -> bool {
    match action {
        ResolverAction::Duplicate(d) => state is Creating && duplicates(d, name, template),
        ResolverAction::Finish(serial) => !(state is Creating) && serial == serial_of(state),
    }
}

/// On a day with no sheet yet, the read of the day sheet of `date` leads to
/// a duplication of the template that creates a sheet named exactly as the
/// trimmed day and month of `date`; once it succeeds the serial number is
/// one.
pub proof fn lemma_missing_day_starts_at_one(r: SerialResolver, date: CalendarDate, text: String)
    requires
        r.state is Requesting,
        r.sheet_name@ == sheet_name_of(date),
        occurs_in(text@, UNPARSEABLE_RANGE@),
    ensures
        state_after_read(ReadOutcome::BadRequest(text)) is Creating,
        forall|a: ResolverAction|
            action_is(a, state_after_read(ReadOutcome::BadRequest(text)), r.sheet_name@, r.template_sheet_id)
                ==> (a matches ResolverAction::Duplicate(d)
                    && d.new_sheet_name@ == sheet_name_of(date)
                    && d.insert_sheet_index == NEW_SHEET_INDEX
                    && d.source_sheet_id == r.template_sheet_id),
        serial_of(state_after_duplicate(true)) == Some(1u32),
{
}

/// A read that finds `n` rows resolves to `n`, not `n + 1`.
pub proof fn lemma_existing_rows_counted(n: u32)
    ensures
        serial_of(state_after_read(ReadOutcome::Values(Some(n)))) == Some(n),
{
}

/// A read leads to a duplication exactly when it was rejected with the text
/// of a missing sheet, and the outcome of that one duplication ends the
/// resolution: it never asks for a second one.
pub proof fn lemma_duplication_only_for_missing_sheet(outcome: ReadOutcome, succeeded: bool)
    ensures
        state_after_read(outcome) is Creating <==> is_missing_sheet(outcome),
        !(state_after_duplicate(succeeded) is Creating),
        !(state_after_duplicate(succeeded) is Requesting),
{
}

/// The serial number that a whole resolution gives: after the read, and
/// after the duplication where the read asked for one.
pub open spec fn resolved_serial(outcome: ReadOutcome, duplicated: bool) -> Option<u32> {
    if state_after_read(outcome) is Creating {
        serial_of(state_after_duplicate(duplicated))
    } else {
        serial_of(state_after_read(outcome))
    }
}

/// Two resolutions for the same day that both find its sheet missing both
/// ask to create that same sheet, and where both duplications succeed both
/// give the serial number one: nothing orders them against each other.
pub proof fn lemma_concurrent_first_resolutions(
    a: SerialResolver,
    b: SerialResolver,
    text_a: String,
    text_b: String,
)
    requires
        a.state is Requesting,
        b.state is Requesting,
        a.sheet_name@ == b.sheet_name@,
        occurs_in(text_a@, UNPARSEABLE_RANGE@),
        occurs_in(text_b@, UNPARSEABLE_RANGE@),
    ensures
        forall|x: ResolverAction, y: ResolverAction|
            action_is(x, state_after_read(ReadOutcome::BadRequest(text_a)), a.sheet_name@, a.template_sheet_id)
                && action_is(y, state_after_read(ReadOutcome::BadRequest(text_b)), b.sheet_name@, b.template_sheet_id)
                ==> (x matches ResolverAction::Duplicate(dx) && y matches ResolverAction::Duplicate(dy)
                    && dx.new_sheet_name@ == dy.new_sheet_name@),
        resolved_serial(ReadOutcome::BadRequest(text_a), true) == Some(1u32),
        resolved_serial(ReadOutcome::BadRequest(text_b), true) == Some(1u32),
{
}

impl SerialResolver {
    /// A resolution for the day sheet `sheet_name`, created from
    /// `template_sheet_id` where it is missing.
    pub fn new(sheet_name: String, template_sheet_id: i32) -> (r: SerialResolver)
        ensures
            r.sheet_name@ == sheet_name@,
            r.template_sheet_id == template_sheet_id,
            r.state is Requesting,
    {
        SerialResolver { sheet_name, template_sheet_id, state: ResolverState::Requesting }
    }

    /// The range to read: all rows of the day sheet.
    pub fn range(&self) -> (r: String)
        ensures
            r@ == self.sheet_name@ + ROW_SPAN@,
    {
        self.sheet_name.clone().concat(ROW_SPAN)
    }

    /// Takes in the backend's answer to the read.
    pub fn on_read(&mut self, outcome: ReadOutcome) -> (r: ResolverAction)
        requires
            old(self).state is Requesting,
        ensures
            final(self).sheet_name == old(self).sheet_name,
            final(self).template_sheet_id == old(self).template_sheet_id,
            final(self).state == state_after_read(outcome),
            action_is(r, final(self).state, old(self).sheet_name@, old(self).template_sheet_id),
    {
        match outcome {
            ReadOutcome::Values(Some(n)) => {
                self.state = ResolverState::Resolved(n);
                ResolverAction::Finish(Some(n))
            },
            ReadOutcome::Values(None) => {
                self.state = ResolverState::Failed;
                ResolverAction::Finish(None)
            },
            ReadOutcome::BadRequest(text) => {
                if contains_text(text.as_str(), UNPARSEABLE_RANGE) {
                    self.state = ResolverState::Creating;
                    ResolverAction::Duplicate(
                        DuplicateSheet {
                            insert_sheet_index: NEW_SHEET_INDEX,
                            new_sheet_name: self.sheet_name.clone(),
                            source_sheet_id: self.template_sheet_id,
                        },
                    )
                } else {
                    self.state = ResolverState::Failed;
                    ResolverAction::Finish(None)
                }
            },
            ReadOutcome::Failed => {
                self.state = ResolverState::Failed;
                ResolverAction::Finish(None)
            },
        }
    }

    /// Takes in whether the duplication of the template succeeded, and gives
    /// the serial number.
    pub fn on_duplicate(&mut self, succeeded: bool) -> (r: Option<u32>)
        requires
            old(self).state is Creating,
        ensures
            final(self).sheet_name == old(self).sheet_name,
            final(self).template_sheet_id == old(self).template_sheet_id,
            final(self).state == state_after_duplicate(succeeded),
            r == serial_of(final(self).state),
    {
        if succeeded {
            self.state = ResolverState::Resolved(1);
            Some(1)
        } else {
            self.state = ResolverState::Failed;
            None
        }
    }
}

} // verus!
