//! The organizer: the task list together with what the user sees of it, as
//! a state that messages move on.
//!
//! Reading and writing files is left to the caller: an update says which of
//! the two the caller owes, and the caller reports how it went.

use crate::calendar::civil_reading;
use crate::data::{completed_in, positions, Data, DataView, FileError, FileErrorKind, Filters};
use crate::text::{quote, quoted_text};
use crate::time::{Duration, Time, TimeError};
use crate::views::ViewType;
use vstd::prelude::*;
use vstd::string::StringExecFns;

verus! {

/// The two dates between which the summary lists the completed tasks, as
/// they were typed and as times: the first from the start of its day, the
/// second to the end of its day.
#[derive(Debug, Clone, Copy)]
pub struct SummaryDates {
    pub initial_day: u32,
    pub initial_month: u32,
    pub initial_year: u32,
    pub initial_date: Result<Time, TimeError>,
    pub final_day: u32,
    pub final_month: u32,
    pub final_year: u32,
    pub final_date: Result<Time, TimeError>,
}

impl SummaryDates {
    /// The dates of a span between two times: the fields are the local days
    /// of the two, and the times are kept as they are.
    pub open spec fn between(first: Time, last: Time) -> SummaryDates {
        let from = civil_reading(first.instant() + first.offset());
        let to = civil_reading(last.instant() + last.offset());
        SummaryDates {
            initial_day: from.2 as u32,
            initial_month: from.1 as u32,
            initial_year: from.0 as u32,
            initial_date: Ok(first),
            final_day: to.2 as u32,
            final_month: to.1 as u32,
            final_year: to.0 as u32,
            final_date: Ok(last),
        }
    }

    /// The dates of the span of `hours` hours that ends at `now`. A span
    /// that would begin before the first time that can be held begins there.
    pub open spec fn last_hours(hours: int, now: Time) -> SummaryDates {
        SummaryDates::between(
            Time::at(
                crate::time::clamped(
                    now.instant() - hours * 3600,
                    Time::earliest(now.offset()),
                    Time::latest(now.offset()),
                ),
                now.offset(),
            ),
            now,
        )
    }

    /// The dates with the first made anew from its fields, from the start of
    /// the day.
    pub open spec fn dated_from(self) -> SummaryDates {
        SummaryDates {
            initial_date: Time::of_civil(
                self.initial_day,
                self.initial_month,
                self.initial_year,
                0,
                0,
                0,
            ),
            ..self
        }
    }

    /// The dates with the second made anew from its fields, to the end of
    /// the day.
    pub open spec fn dated_to(self) -> SummaryDates {
        SummaryDates {
            final_date: Time::of_civil(
                self.final_day,
                self.final_month,
                self.final_year,
                23,
                59,
                59,
            ),
            ..self
        }
    }

    /// The dates of a span between two times.
    pub fn new(initial_date: &Time, final_date: &Time) -> (dates: SummaryDates)
        ensures
            dates == SummaryDates::between(*initial_date, *final_date),
    {
        let from = initial_date.civil();
        let to = final_date.civil();
        SummaryDates {
            initial_day: from.day,
            initial_month: from.month,
            initial_year: from.year,
            initial_date: Ok(*initial_date),
            final_day: to.day,
            final_month: to.month,
            final_year: to.year,
            final_date: Ok(*final_date),
        }
    }

    /// The dates of the span of `hours` hours that ends at `now`.
    pub fn new_last_hours(hours: u32, now: &Time) -> (dates: SummaryDates)
        ensures
            dates == SummaryDates::last_hours(hours as int, *now),
    {
        let span = Duration::from_hours(hours as i64);
        let before = now.saturating_sub(&span);
        proof {
            Time::lemma_at_self(before);
        }
        SummaryDates::new(&before, now)
    }

    /// Makes the first date anew from its fields.
    pub fn refresh_initial_date(&mut self)
        ensures
            *final(self) == old(self).dated_from(),
    {
        self.initial_date = Time::new(
            self.initial_day,
            self.initial_month,
            self.initial_year,
            0,
            0,
            0,
        );
    }

    /// Makes the second date anew from its fields.
    pub fn refresh_final_date(&mut self)
        ensures
            *final(self) == old(self).dated_to(),
    {
        self.final_date = Time::new(self.final_day, self.final_month, self.final_year, 23, 59, 59);
    }
}

/// What the caller owes the organizer after an update.
#[derive(Debug, Clone, Copy, PartialEq, Eq, Structural)]
pub enum Request {
    /// Write the task list to the file named in the organizer, and report
    /// with `saved`.
    Save,
    /// Read the task list from the file named in the organizer and report
    /// with `loaded`; then write it back as after every update.
    Load,
}

/// The organizer: the task list, the message for the user where something
/// failed, the name of the file of the list, the view that is chosen, and
/// the dates of the summary.
#[derive(Debug)]
pub struct Organizer {
    pub data: Data,
    pub error_text: Option<String>,
    pub file_name: Option<String>,
    pub view_type: Option<ViewType>,
    pub summary_dates: SummaryDates,
}

/// The organizer as a value.
pub struct OrganizerView {
    pub data: DataView,
    pub error_text: Option<Seq<char>>,
    pub file_name: Option<Seq<char>>,
    pub view_type: Option<ViewType>,
    pub summary_dates: SummaryDates,
}

impl View for Organizer {
    type V = OrganizerView;

    open spec fn view(&self) -> OrganizerView {
        OrganizerView {
            data: self.data@,
            error_text: match self.error_text {
                Some(text) => Some(text@),
                None => None,
            },
            file_name: match self.file_name {
                Some(name) => Some(name@),
                None => None,
            },
            view_type: self.view_type,
            summary_dates: self.summary_dates,
        }
    }
}

impl FileErrorKind {
    /// The name of the kind as the user reads it.
    pub open spec fn name(self) -> Seq<char> {
        match self {
            FileErrorKind::Load => "Load"@,
            FileErrorKind::Serialization => "Serialization"@,
            FileErrorKind::Write => "Write"@,
        }
    }

    /// The name of the kind as the user reads it.
    pub fn to_string(&self) -> (text: String)
        ensures
            text@ == self.name(),
    {
        match self {
            FileErrorKind::Load => String::from_str("Load"),
            FileErrorKind::Serialization => String::from_str("Serialization"),
            FileErrorKind::Write => String::from_str("Write"),
        }
    }
}

/// What the user is told when a file failed: the kind of the failure, then
/// its message between quotes.
pub open spec fn problem_text(kind: FileErrorKind, message: Seq<char>) -> Seq<char> {
    kind.name() + " problem: "@ + quoted_text(message)
}

/// What the user is told when the list could not be written after an
/// update.
pub open spec fn unsaved_text() -> Seq<char> {
    "Warning: Unsaved modifications."@
}

impl FileError {
    /// What the user is told of the error.
    pub fn problem(&self) -> (text: String)
        ensures
            text@ == problem_text(self.kind, self.message@),
    {
        let quoted = quote(self.message.as_str());
        self.kind.to_string().concat(" problem: ").concat(quoted.as_str())
    }
}

impl OrganizerView {
    /// The organizer as it starts at `now` with a task list and the name of
    /// its file: nothing failed, the list view chosen, and the summary over
    /// the last day.
    pub open spec fn start(
        data: DataView,
        file_name: Option<Seq<char>>,
        now: Time,
    ) -> OrganizerView {
        OrganizerView {
            data,
            error_text: None,
            file_name,
            view_type: Some(ViewType::List),
            summary_dates: SummaryDates::last_hours(24, now),
        }
    }

    /// The task list that is used where none could be loaded: empty, and
    /// showing the pending tasks only.
    pub open spec fn empty_data() -> DataView {
        DataView {
            tasks: Seq::empty(),
            rules: Seq::empty(),
            filters: Filters { complete: false, todo: true, snoozed: false },
        }
    }

    /// The organizer after the caller reported how loading went: the list
    /// that was loaded takes the place of the one held, or the user is told
    /// of the failure and the list held stays.
    pub open spec fn loaded(self, result: Result<Data, FileError>) -> OrganizerView {
        match result {
            Ok(data) => OrganizerView { data: data@, ..self },
            Err(error) => OrganizerView {
                error_text: Some(problem_text(error.kind, error.message@)),
                ..self
            },
        }
    }

    /// The organizer after the caller reported how saving went: a failure
    /// is told to the user.
    pub open spec fn saved(self, failed: bool) -> OrganizerView {
        if failed {
            OrganizerView { error_text: Some(unsaved_text()), ..self }
        } else {
            self
        }
    }

    /// The positions of the tasks that the summary lists: those completed
    /// strictly between the two dates, and none while one of the dates is
    /// not a date.
    pub open spec fn summary(self) -> Seq<usize> {
        match (self.summary_dates.initial_date, self.summary_dates.final_date) {
            (Ok(first), Ok(last)) => positions(self.data.tasks, completed_in(first, last)),
            _ => Seq::empty(),
        }
    }
}

impl Organizer {
    /// The organizer as it starts at `now` with a task list and the name of
    /// its file.
    pub fn start_at(data: Data, file_name: Option<String>, now: &Time) -> (organizer: Organizer)
        ensures
            organizer@ == OrganizerView::start(
                data@,
                match file_name {
                    Some(name) => Some(name@),
                    None => None,
                },
                *now,
            ),
    {
        Organizer {
            data,
            error_text: None,
            file_name,
            view_type: Some(ViewType::List),
            summary_dates: SummaryDates::new_last_hours(24, now),
        }
    }

    /// The organizer as it starts at `now` after the caller looked for the
    /// file of a task list and tried to load it: with the list loaded, or
    /// with an empty list where there was no file or it could not be loaded.
    pub fn new_at(
        file_name: Option<String>,
        loaded: Result<Data, FileError>,
        now: &Time,
    ) -> (organizer: Organizer)
        ensures
            organizer@ == OrganizerView::start(
                match loaded {
                    Ok(data) => data@,
                    Err(_) => OrganizerView::empty_data(),
                },
                match file_name {
                    Some(name) => Some(name@),
                    None => None,
                },
                *now,
            ),
    {
        let data = match loaded {
            Ok(data) => data,
            Err(_) => Data::new(),
        };
        Organizer::start_at(data, file_name, now)
    }

    /// The title of the organizer.
    pub fn title(&self) -> (title: String)
        ensures
            title@ == "Organizer"@,
    {
        String::from_str("Organizer")
    }

    /// Appends a new task made at `now`.
    pub fn add_task_at(&mut self, now: Time)
        ensures
            final(self)@ == (OrganizerView { data: old(self)@.data.add_task(now), ..old(self)@ }),
    {
        self.data.add_task_at(now);
    }

    /// Appends a new task made at the time of the system clock.
    pub fn add_task(&mut self)
        ensures
            exists|now: Time|
                now.wf() && final(self)@ == (OrganizerView {
                    data: old(self)@.data.add_task(now),
                    ..old(self)@
                }),
            final(self)@.data.tasks.len() == old(self)@.data.tasks.len() + 1,
    {
        self.add_task_at(Time::now());
    }

    /// Takes the caller's report of how loading went.
    pub fn loaded(&mut self, result: Result<Data, FileError>)
        ensures
            final(self)@ == old(self)@.loaded(result),
    {
        match result {
            Ok(data) => {
                self.data = data;
            },
            Err(error) => {
                self.error_text = Some(error.problem());
            },
        }
    }

    /// Takes the caller's report of how saving went.
    pub fn saved(&mut self, result: Result<(), FileError>)
        ensures
            final(self)@ == old(self)@.saved(result is Err),
    {
        if result.is_err() {
            self.error_text = Some(String::from_str("Warning: Unsaved modifications."));
        }
    }

    /// The positions of the tasks that the summary lists.
    pub fn summary(&self) -> (done: Vec<usize>)
        ensures
            done@ == self@.summary(),
    {
        match (&self.summary_dates.initial_date, &self.summary_dates.final_date) {
            (Ok(first), Ok(last)) => self.data.completed_between(first, last),
            _ => Vec::new(),
        }
    }
}

} // verus!
