//! The summary view: the tasks completed between two dates.

use crate::organizer::{Organizer, OrganizerView, SummaryDates};
use crate::text::{read_number, typed_number};
use crate::time::Time;
use crate::views::ViewType;
use vstd::prelude::*;

verus! {

/// What a user can ask of the summary view.
#[derive(Debug, Clone)]
pub enum Message {
    SelectView(ViewType),
    UpdateInitialDay(String),
    UpdateInitialMonth(String),
    UpdateInitialYear(String),
    UpdateFinalDay(String),
    UpdateFinalMonth(String),
    UpdateFinalYear(String),
    LastDay,
    LastWeek,
    LastTwoWeeks,
}

impl OrganizerView {
    /// The organizer after a message to the summary view arrived at `now`:
    /// a view is chosen, a field of one of the two dates is typed and that
    /// date made anew, or the dates are set to the last day, week or two
    /// weeks before `now`.
    pub open spec fn update_summary_view(self, message: Message, now: Time) -> OrganizerView {
        let dates = self.summary_dates;
        match message {
            Message::SelectView(value) => OrganizerView { view_type: Some(value), ..self },
            Message::UpdateInitialDay(text) => OrganizerView {
                summary_dates: (SummaryDates {
                    initial_day: typed_number(text@, 31, dates.initial_day),
                    ..dates
                }).dated_from(),
                ..self
            },
            Message::UpdateInitialMonth(text) => OrganizerView {
                summary_dates: (SummaryDates {
                    initial_month: typed_number(text@, 12, dates.initial_month),
                    ..dates
                }).dated_from(),
                ..self
            },
            Message::UpdateInitialYear(text) => OrganizerView {
                summary_dates: (SummaryDates {
                    initial_year: typed_number(text@, 10000, dates.initial_year),
                    ..dates
                }).dated_from(),
                ..self
            },
            Message::UpdateFinalDay(text) => OrganizerView {
                summary_dates: (SummaryDates {
                    final_day: typed_number(text@, 31, dates.final_day),
                    ..dates
                }).dated_to(),
                ..self
            },
            Message::UpdateFinalMonth(text) => OrganizerView {
                summary_dates: (SummaryDates {
                    final_month: typed_number(text@, 12, dates.final_month),
                    ..dates
                }).dated_to(),
                ..self
            },
            Message::UpdateFinalYear(text) => OrganizerView {
                summary_dates: (SummaryDates {
                    final_year: typed_number(text@, 10000, dates.final_year),
                    ..dates
                }).dated_to(),
                ..self
            },
            Message::LastDay => OrganizerView {
                summary_dates: SummaryDates::last_hours(24, now),
                ..self
            },
            Message::LastWeek => OrganizerView {
                summary_dates: SummaryDates::last_hours(168, now),
                ..self
            },
            Message::LastTwoWeeks => OrganizerView {
                summary_dates: SummaryDates::last_hours(336, now),
                ..self
            },
        }
    }
}

impl Organizer {
    /// Applies a message to the summary view that arrived at `now`.
    pub fn update_summary_view_at(&mut self, message: Message, now: &Time)
        ensures
            final(self)@ == old(self)@.update_summary_view(message, *now),
    {
        match message {
            Message::SelectView(value) => {
                self.view_type = Some(value);
            },
            Message::UpdateInitialDay(text) => {
                self.summary_dates.initial_day = read_number(
                    text.as_str(),
                    31,
                    self.summary_dates.initial_day,
                );
                self.summary_dates.refresh_initial_date();
            },
            Message::UpdateInitialMonth(text) => {
                self.summary_dates.initial_month = read_number(
                    text.as_str(),
                    12,
                    self.summary_dates.initial_month,
                );
                self.summary_dates.refresh_initial_date();
            },
            Message::UpdateInitialYear(text) => {
                self.summary_dates.initial_year = read_number(
                    text.as_str(),
                    10000,
                    self.summary_dates.initial_year,
                );
                self.summary_dates.refresh_initial_date();
            },
            Message::UpdateFinalDay(text) => {
                self.summary_dates.final_day = read_number(
                    text.as_str(),
                    31,
                    self.summary_dates.final_day,
                );
                self.summary_dates.refresh_final_date();
            },
            Message::UpdateFinalMonth(text) => {
                self.summary_dates.final_month = read_number(
                    text.as_str(),
                    12,
                    self.summary_dates.final_month,
                );
                self.summary_dates.refresh_final_date();
            },
            Message::UpdateFinalYear(text) => {
                self.summary_dates.final_year = read_number(
                    text.as_str(),
                    10000,
                    self.summary_dates.final_year,
                );
                self.summary_dates.refresh_final_date();
            },
            Message::LastDay => {
                self.summary_dates = SummaryDates::new_last_hours(24, now);
            },
            Message::LastWeek => {
                self.summary_dates = SummaryDates::new_last_hours(24 * 7, now);
            },
            Message::LastTwoWeeks => {
                self.summary_dates = SummaryDates::new_last_hours(24 * 14, now);
            },
        }
    }
}

} // verus!
