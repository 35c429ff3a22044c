//! Periodic tasks: a recurrence rule, and the generator that turns the time
//! that has passed into the tasks that are due.
//!
//! The units are fixed approximations: a month is four weeks and a year is
//! twelve such months.

use crate::calendar::{civil_reading, civil_seconds, printable};
use crate::task::{Task, TaskView};
use crate::text::{decimal_usize, parse_usize, read_number, typed_number};
use crate::time::{Duration, Time, TimeError};
use vstd::prelude::*;
use vstd::string::StringExecFns;

verus! {

pub const SECONDS_PER_DAY: usize = 3600 * 24;

pub const DAYS_PER_WEEK: usize = 7;

pub const WEEKS_PER_MONTH: usize = 4;

pub const MONTHS_PER_YEAR: usize = 12;

/// The unit of a recurrence.
#[derive(Clone, Copy, PartialEq, Eq, Structural, Debug)]
pub enum TimePeriod {
    Daily,
    Weekly,
    Monthly,
    Yearly,
}

impl TimePeriod {
    /// The seconds of one unit.
    pub open spec fn seconds(self) -> int {
        match self {
            TimePeriod::Daily => 86_400,
            TimePeriod::Weekly => 604_800,
            TimePeriod::Monthly => 2_419_200,
            TimePeriod::Yearly => 29_030_400,
        }
    }
}

/// What a user can ask of a periodic task.
#[derive(Debug, Clone)]
pub enum Message {
    TextInput(String),
    DeleteTask,
    UpdateInitialHour(String),
    UpdateInitialMinute(String),
    UpdateInitialDay(String),
    UpdateInitialMonth(String),
    UpdateInitialYear(String),
    Daily,
    Weekly,
    Monthly,
    Yearly,
    UpdateFrequency(String),
}

/// A recurrence rule: a task that comes back `frequency` times per unit,
/// counted from an anchor, with the time of the last occurrence that was
/// made into a task.
#[derive(Debug)]
pub struct PeriodicTask {
    pub description: String,
    pub frequency: Option<usize>,
    pub time_period: Option<TimePeriod>,
    pub initial_hour: u32,
    pub initial_minute: u32,
    pub initial_day: u32,
    pub initial_month: u32,
    pub initial_year: u32,
    pub initial_date: Result<Time, TimeError>,
    pub last_created: Option<Time>,
}

/// A periodic task as a value: the description as a sequence of characters.
pub struct PeriodicTaskView {
    pub description: Seq<char>,
    pub frequency: Option<usize>,
    pub time_period: Option<TimePeriod>,
    pub initial_hour: u32,
    pub initial_minute: u32,
    pub initial_day: u32,
    pub initial_month: u32,
    pub initial_year: u32,
    pub initial_date: Result<Time, TimeError>,
    pub last_created: Option<Time>,
}

impl View for PeriodicTask {
    type V = PeriodicTaskView;

    open spec fn view(&self) -> PeriodicTaskView {
        PeriodicTaskView {
            description: self.description@,
            frequency: self.frequency,
            time_period: self.time_period,
            initial_hour: self.initial_hour,
            initial_minute: self.initial_minute,
            initial_day: self.initial_day,
            initial_month: self.initial_month,
            initial_year: self.initial_year,
            initial_date: self.initial_date,
            last_created: self.last_created,
        }
    }
}

/// How many occurrences, counted from `start` and `period` seconds apart,
/// lie strictly before `now` and can be held at the offset of `start`.
pub open spec fn occurrences(start: Time, period: int, now: Time) -> int {
    let by_now = if now.instant() > start.instant() {
        (now.instant() - start.instant() - 1) / period
    } else {
        0
    };
    let by_range = (Time::latest(start.offset()) - start.instant()) / period;
    if by_now <= by_range {
        by_now
    } else {
        by_range
    }
}

/// For a positive divisor, `k` is at most the quotient exactly when `k`
/// times the divisor is at most the dividend.
proof fn lemma_quotient_bound(a: int, p: int, k: int)
    requires
        p > 0,
    ensures
        k <= a / p <==> k * p <= a,
{
    vstd::arithmetic::div_mod::lemma_fundamental_div_mod(a, p);
    let q = a / p;
    let r = a % p;
    assert(0 <= r < p) by {
        vstd::arithmetic::div_mod::lemma_mod_bound(a, p);
    }
    if k <= q {
        assert(k * p <= q * p) by (nonlinear_arith)
            requires
                k <= q,
                p > 0,
        ;
        assert(q * p == p * q) by (nonlinear_arith);
    } else {
        assert(k * p >= (q + 1) * p) by (nonlinear_arith)
            requires
                k >= q + 1,
                p > 0,
        ;
        assert((q + 1) * p == p * q + p) by (nonlinear_arith);
    }
}

/// The occurrences counted by `occurrences` are exactly those that lie
/// strictly before `now` and can be held.
pub proof fn lemma_occurrences(start: Time, period: int, now: Time, k: int)
    requires
        start.wf(),
        period > 0,
        k >= 1,
    ensures
        occurrences(start, period, now) >= 0,
        k <= occurrences(start, period, now) <==> (start.instant() + k * period < now.instant()
            && printable(start.instant() + k * period, start.offset())),
{
    let gap = now.instant() - start.instant() - 1;
    let room = Time::latest(start.offset()) - start.instant();
    lemma_quotient_bound(gap, period, k);
    lemma_quotient_bound(room, period, k);
    lemma_quotient_bound(gap, period, 0);
    lemma_quotient_bound(room, period, 0);
    assert(k * period >= period) by (nonlinear_arith)
        requires
            k >= 1,
            period > 0,
    ;
}

/// The frequency that a typed text stands for: the number where it is one,
/// else none.
pub open spec fn typed_frequency(text: Seq<char>) -> Option<usize> {
    if text.len() == 0 {
        None
    } else {
        decimal_usize(text)
    }
}

impl PeriodicTaskView {
    /// A rule as it is created at `now`: no frequency, no unit, no
    /// watermark, the fields of the anchor set to the local date and time of
    /// `now`, and the anchor itself to the start of that day.
    pub open spec fn fresh(description: Seq<char>, now: Time) -> PeriodicTaskView {
        let civil = civil_reading(now.instant() + now.offset());
        PeriodicTaskView {
            description,
            frequency: None,
            time_period: None,
            initial_hour: civil.3 as u32,
            initial_minute: civil.4 as u32,
            initial_day: civil.2 as u32,
            initial_month: civil.1 as u32,
            initial_year: civil.0 as u32,
            initial_date: Time::of_civil(
                civil.2 as u32,
                civil.1 as u32,
                civil.0 as u32,
                0,
                0,
                0,
            ),
            last_created: None,
        }
    }

    /// The seconds from one occurrence to the next: the seconds of the unit
    /// divided by the frequency, rounded towards zero. There is none while
    /// the frequency or the unit is missing; a frequency of zero counts as
    /// missing.
    pub open spec fn period_in_seconds(self) -> Option<usize> {
        match (self.frequency, self.time_period) {
            (Some(frequency), Some(unit)) => if frequency == 0 {
                None
            } else {
                Some((unit.seconds() / (frequency as int)) as usize)
            },
            _ => None,
        }
    }

    /// The period of the rule in seconds; a rule without a description has
    /// none.
    pub open spec fn period_length(self) -> Option<int> {
        if self.description.len() == 0 {
            None
        } else {
            match self.period_in_seconds() {
                Some(period) => Some(period as int),
                None => None,
            }
        }
    }

    /// The time from which the next occurrences are counted: the last one
    /// that was made, or the anchor where none was. A rule whose anchor is
    /// not a date has none.
    pub open spec fn cursor(self) -> Option<Time> {
        match self.initial_date {
            Ok(anchor) => match self.last_created {
                Some(last) => Some(last),
                None => Some(anchor),
            },
            Err(_) => None,
        }
    }

    /// How many tasks are due at `now`. A rule that is incomplete, or whose
    /// period is shorter than a second, has none due.
    pub open spec fn due(self, now: Time) -> int {
        match (self.period_length(), self.cursor()) {
            (Some(period), Some(start)) => if period > 0 {
                occurrences(start, period, now)
            } else {
                0
            },
            _ => 0,
        }
    }

    /// The time of the `k`-th occurrence after the cursor.
    pub open spec fn occurrence_time(self, k: int) -> Time {
        Time::at(
            self.cursor().unwrap().instant() + k * self.period_length().unwrap(),
            self.cursor().unwrap().offset(),
        )
    }

    /// The task made at `now` for the `k`-th occurrence after the cursor: a
    /// new task with the placeholder id 0, described by the rule's
    /// description, a hyphen between spaces, and the text of the occurrence.
    pub open spec fn occurrence(self, k: int, now: Time) -> TaskView {
        TaskView {
            description: self.description + " - "@ + self.occurrence_time(k).text(),
            ..TaskView::fresh(0, now)
        }
    }

    /// The watermark after the tasks due at `now` were made.
    pub open spec fn watermark_after(self, now: Time) -> Option<Time> {
        if self.due(now) > 0 {
            Some(self.occurrence_time(self.due(now)))
        } else {
            self.last_created
        }
    }

    /// The rule after the tasks due at `now` were made.
    pub open spec fn materialized(self, now: Time) -> PeriodicTaskView {
        PeriodicTaskView { last_created: self.watermark_after(now), ..self }
    }

    /// The rule with its anchor made anew from the fields typed for it.
    pub open spec fn dated(self) -> PeriodicTaskView {
        PeriodicTaskView {
            initial_date: Time::of_civil(
                self.initial_day,
                self.initial_month,
                self.initial_year,
                self.initial_hour,
                self.initial_minute,
                0,
            ),
            ..self
        }
    }

    /// The rule after a message. A deletion is for the list that holds the
    /// rule and is not a message to the rule.
    pub open spec fn update(self, message: Message) -> PeriodicTaskView {
        match message {
            Message::TextInput(description) => PeriodicTaskView {
                description: description@,
                ..self
            },
            Message::DeleteTask => self,
            Message::UpdateInitialDay(text) => (PeriodicTaskView {
                initial_day: typed_number(text@, 31, self.initial_day),
                ..self
            }).dated(),
            Message::UpdateInitialMonth(text) => (PeriodicTaskView {
                initial_month: typed_number(text@, 12, self.initial_month),
                ..self
            }).dated(),
            Message::UpdateInitialYear(text) => (PeriodicTaskView {
                initial_year: typed_number(text@, 10000, self.initial_year),
                ..self
            }).dated(),
            Message::UpdateInitialHour(text) => (PeriodicTaskView {
                initial_hour: typed_number(text@, 60, self.initial_hour),
                ..self
            }).dated(),
            Message::UpdateInitialMinute(text) => (PeriodicTaskView {
                initial_minute: typed_number(text@, 60, self.initial_minute),
                ..self
            }).dated(),
            Message::Daily => PeriodicTaskView { time_period: Some(TimePeriod::Daily), ..self },
            Message::Weekly => PeriodicTaskView { time_period: Some(TimePeriod::Weekly), ..self },
            Message::Monthly => PeriodicTaskView {
                time_period: Some(TimePeriod::Monthly),
                ..self
            },
            Message::Yearly => PeriodicTaskView { time_period: Some(TimePeriod::Yearly), ..self },
            Message::UpdateFrequency(text) => PeriodicTaskView {
                frequency: typed_frequency(text@),
                ..self
            },
        }
    }

    /// Whether the watermark and the anchor, where they are set, are times
    /// that executable code can hold.
    pub open spec fn wf(self) -> bool {
        &&& self.last_created matches Some(t) ==> t.wf()
        &&& self.initial_date matches Ok(t) ==> t.wf()
    }
}

impl PeriodicTask {
    /// A new rule made at `now`: no frequency, no unit, no watermark, the
    /// fields of the anchor set to the local date and time of `now`, and the
    /// anchor itself to the start of that day.
    pub fn new_at(description: String, now: &Time) -> (rule: PeriodicTask)
        ensures
            rule@ == PeriodicTaskView::fresh(description@, *now),
            rule@.initial_date is Ok,
    {
        let civil = now.civil();
        PeriodicTask {
            description,
            frequency: None,
            time_period: None,
            initial_hour: civil.hour,
            initial_minute: civil.minute,
            initial_day: civil.day,
            initial_month: civil.month,
            initial_year: civil.year,
            initial_date: Time::new(civil.day, civil.month, civil.year, 0, 0, 0),
            last_created: None,
        }
    }

    /// A new rule made at the time of the system clock.
    pub fn new(description: String) -> (rule: PeriodicTask)
        ensures
            exists|now: Time| now.wf() && rule@ == PeriodicTaskView::fresh(description@, now),
            rule@.description == description@,
            rule@.frequency is None,
            rule@.time_period is None,
            rule@.last_created is None,
            rule@.initial_date is Ok,
    {
        let now = Time::now();
        PeriodicTask::new_at(description, &now)
    }

    /// Makes the anchor anew from the fields typed for it.
    fn refresh_date(&mut self)
        ensures
            final(self)@ == old(self)@.dated(),
    {
        self.initial_date = Time::new(
            self.initial_day,
            self.initial_month,
            self.initial_year,
            self.initial_hour,
            self.initial_minute,
            0,
        );
    }

    /// Applies a message. A deletion is for the list that holds the rule and
    /// must not be sent to the rule.
    pub fn update(&mut self, message: Message)
        requires
            !(message is DeleteTask),
        ensures
            final(self)@ == old(self)@.update(message),
    {
        match message {
            Message::TextInput(description) => {
                self.description = description;
            },
            Message::DeleteTask => {},
            Message::UpdateInitialDay(text) => {
                self.initial_day = read_number(text.as_str(), 31, self.initial_day);
                self.refresh_date();
            },
            Message::UpdateInitialMonth(text) => {
                self.initial_month = read_number(text.as_str(), 12, self.initial_month);
                self.refresh_date();
            },
            Message::UpdateInitialYear(text) => {
                self.initial_year = read_number(text.as_str(), 10000, self.initial_year);
                self.refresh_date();
            },
            Message::UpdateInitialHour(text) => {
                self.initial_hour = read_number(text.as_str(), 60, self.initial_hour);
                self.refresh_date();
            },
            Message::UpdateInitialMinute(text) => {
                self.initial_minute = read_number(text.as_str(), 60, self.initial_minute);
                self.refresh_date();
            },
            Message::Daily => {
                self.time_period = Some(TimePeriod::Daily);
            },
            Message::Weekly => {
                self.time_period = Some(TimePeriod::Weekly);
            },
            Message::Monthly => {
                self.time_period = Some(TimePeriod::Monthly);
            },
            Message::Yearly => {
                self.time_period = Some(TimePeriod::Yearly);
            },
            Message::UpdateFrequency(text) => {
                self.frequency = if text.as_str().is_empty() {
                    None
                } else {
                    parse_usize(text.as_str())
                };
            },
        }
    }

    /// The seconds from one occurrence to the next.
    pub fn period_in_seconds(&self) -> (period: Option<usize>)
        ensures
            period == self@.period_in_seconds(),
    {
        let frequency = match self.frequency {
            Some(frequency) => frequency,
            None => {
                return None;
            },
        };
        let unit = match self.time_period {
            Some(unit) => unit,
            None => {
                return None;
            },
        };
        if frequency == 0 {
            return None;
        }
        let period = match unit {
            TimePeriod::Daily => SECONDS_PER_DAY / frequency,
            TimePeriod::Weekly => DAYS_PER_WEEK * SECONDS_PER_DAY / frequency,
            TimePeriod::Monthly => WEEKS_PER_MONTH * DAYS_PER_WEEK * SECONDS_PER_DAY / frequency,
            TimePeriod::Yearly => MONTHS_PER_YEAR * WEEKS_PER_MONTH * DAYS_PER_WEEK
                * SECONDS_PER_DAY / frequency,
        };
        Some(period)
    }

    /// The period of the rule; a rule without a description has none.
    pub fn period_length(&self) -> (period: Option<Duration>)
        ensures
            match self@.period_length() {
                Some(seconds) => period matches Some(d) && d@ == seconds,
                None => period is None,
            },
    {
        if self.description.as_str().is_empty() {
            return None;
        }
        match self.period_in_seconds() {
            Some(period) => {
                assert(period <= 29_030_400) by {
                    let unit = self.time_period.unwrap();
                    let frequency = self.frequency.unwrap() as int;
                    lemma_quotient_bound(unit.seconds(), frequency, unit.seconds() / frequency);
                    assert(unit.seconds() / frequency <= unit.seconds()) by (nonlinear_arith)
                        requires
                            frequency >= 1,
                            unit.seconds() >= 0,
                            (unit.seconds() / frequency) * frequency <= unit.seconds(),
                            unit.seconds() / frequency >= 0,
                    ;
                }
                Some(Duration::from_seconds(period as i64))
            },
            None => None,
        }
    }

    /// Makes the tasks that are due at `now` and moves the watermark to the
    /// last of them.
    ///
    /// Counted from the watermark, or from the anchor where no task was made
    /// yet, every occurrence strictly before `now` gives one task, in the
    /// order of time, each described by the rule's description and the text
    /// of its own time. A rule that is incomplete, has no description, has
    /// an anchor that is not a date, or has a period shorter than a second,
    /// gives no task and keeps its watermark.
    pub fn materialize(&mut self, now: &Time) -> (tasks: Vec<Task>)
        ensures
            final(self)@ == old(self)@.materialized(*now),
            tasks@.len() == old(self)@.due(*now),
            forall|k: int|
                0 <= k < tasks@.len() ==> (#[trigger] tasks@[k])@ == old(self)@.occurrence(
                    k + 1,
                    *now,
                ),
            final(self)@.due(*now) == 0,
            tasks@.len() > 0 ==> (final(self)@.last_created matches Some(mark)
                && old(self)@.cursor().unwrap().instant() < mark.instant() < now.instant()),
    {
        let mut tasks: Vec<Task> = Vec::new();
        let period = match self.period_length() {
            Some(period) => period,
            None => {
                return tasks;
            },
        };
        if period.num_seconds() <= 0 {
            return tasks;
        }
        let anchor = match self.initial_date {
            Ok(anchor) => anchor,
            Err(_) => {
                return tasks;
            },
        };
        let start = match self.last_created {
            Some(last) => last,
            None => anchor,
        };
        let mut cursor = start;
        let ghost rule = self@;
        proof {
            use_type_invariant(&start);
            use_type_invariant(&anchor);
            use_type_invariant(now);
            lemma_occurrences(start, period@, *now, 1);
            lemma_materialize_idempotent(rule, *now);
            lemma_watermark_advances(rule, *now);
        }
        loop
            invariant
                rule == old(self)@,
                rule.period_length() == Some(period@),
                period@ > 0,
                rule.cursor() == Some(start),
                start.wf(),
                0 <= tasks@.len() <= rule.due(*now),
                rule.due(*now) == occurrences(start, period@, *now),
                cursor.wf(),
                cursor.offset() == start.offset(),
                cursor.instant() == start.instant() + tasks@.len() * period@,
                self@ == (PeriodicTaskView {
                    last_created: if tasks@.len() == 0 {
                        rule.last_created
                    } else {
                        Some(cursor)
                    },
                    ..rule
                }),
                forall|k: int|
                    0 <= k < tasks@.len() ==> (#[trigger] tasks@[k])@ == rule.occurrence(
                        k + 1,
                        *now,
                    ),
            ensures
                tasks@.len() == rule.due(*now),
                tasks@.len() > 0 ==> cursor == rule.occurrence_time(tasks@.len() as int),
                self@ == (PeriodicTaskView {
                    last_created: if tasks@.len() == 0 {
                        rule.last_created
                    } else {
                        Some(cursor)
                    },
                    ..rule
                }),
                forall|k: int|
                    0 <= k < tasks@.len() ==> (#[trigger] tasks@[k])@ == rule.occurrence(
                        k + 1,
                        *now,
                    ),
            decreases now.instant() - cursor.instant(),
        {
            let ghost made = tasks@.len() as int;
            proof {
                lemma_occurrences(start, period@, *now, made + 1);
                assert((made + 1) * period@ == made * period@ + period@) by (nonlinear_arith);
            }
            let next = match cursor.checked_add(&period) {
                Some(next) => next,
                None => {
                    proof {
                        Time::lemma_at_self(cursor);
                    }
                    break ;
                },
            };
            if !next.is_before(now) {
                proof {
                    Time::lemma_at_self(cursor);
                }
                break ;
            }
            cursor = next;
            let text = cursor.to_string();
            let description = self.description.clone().concat(" - ").concat(text.as_str());
            let mut task = Task::new_at(0, *now);
            task.edit(description.as_str());
            proof {
                Time::lemma_at_self(cursor);
            }
            tasks.push(task);
            self.last_created = Some(cursor);
        }
        tasks
    }

    /// Makes the tasks that are due at the time of the system clock.
    pub fn create_tasks(&mut self) -> (tasks: Vec<Task>)
        ensures
            exists|now: Time|
                {
                    &&& now.wf()
                    &&& final(self)@ == old(self)@.materialized(now)
                    &&& tasks@.len() == old(self)@.due(now)
                    &&& forall|k: int|
                        0 <= k < tasks@.len() ==> (#[trigger] tasks@[k])@ == old(
                            self,
                        )@.occurrence(k + 1, now)
                },
    {
        let now = Time::now();
        self.materialize(&now)
    }
}

/// Making the tasks that are due is idempotent: right after the tasks due
/// at `now` were made, none is due at `now`, and making them again changes
/// nothing.
pub proof fn lemma_materialize_idempotent(rule: PeriodicTaskView, now: Time)
    requires
        rule.wf(),
        now.wf(),
    ensures
        rule.materialized(now).due(now) == 0,
        rule.materialized(now).materialized(now) == rule.materialized(now),
{
    let made = rule.due(now);
    if made > 0 {
        let period = rule.period_length().unwrap();
        let start = rule.cursor().unwrap();
        lemma_occurrences(start, period, now, made);
        lemma_occurrences(start, period, now, made + 1);
        Time::lemma_at(start.instant() + made * period, start.offset());
        let last = rule.occurrence_time(made);
        lemma_occurrences(last, period, now, 1);
        assert((made + 1) * period == made * period + 1 * period) by (nonlinear_arith);
    }
}

/// The tasks that are due carry strictly increasing times: each occurrence
/// lies after the cursor and after the occurrences before it, and strictly
/// before `now`.
pub proof fn lemma_occurrences_ascend(rule: PeriodicTaskView, now: Time, j: int, k: int)
    requires
        rule.wf(),
        1 <= j < k <= rule.due(now),
    ensures
        rule.cursor().unwrap().instant() < rule.occurrence_time(j).instant(),
        rule.occurrence_time(j).instant() < rule.occurrence_time(k).instant(),
        rule.occurrence_time(k).instant() < now.instant(),
        rule.occurrence_time(j).wf(),
        rule.occurrence_time(k).wf(),
{
    let period = rule.period_length().unwrap();
    let start = rule.cursor().unwrap();
    lemma_occurrences(start, period, now, j);
    lemma_occurrences(start, period, now, k);
    Time::lemma_at(start.instant() + j * period, start.offset());
    Time::lemma_at(start.instant() + k * period, start.offset());
    assert(0 < j * period < k * period) by (nonlinear_arith)
        requires
            1 <= j < k,
            period > 0,
    ;
}

/// The watermark only moves forward and never reaches `now`: where tasks
/// were made, the new watermark lies strictly after the old one, or after
/// the anchor where there was none, and strictly before `now`; where none
/// was made it stays as it was.
pub proof fn lemma_watermark_advances(rule: PeriodicTaskView, now: Time)
    requires
        rule.wf(),
    ensures
        rule.due(now) >= 0,
        rule.due(now) == 0 ==> rule.watermark_after(now) == rule.last_created,
        rule.due(now) > 0 ==> (rule.watermark_after(now) matches Some(mark) && mark.wf()
            && rule.cursor().unwrap().instant() < mark.instant() < now.instant()),
{
    if rule.period_length() is Some && rule.cursor() is Some && rule.period_length().unwrap() > 0 {
        let period = rule.period_length().unwrap();
        let start = rule.cursor().unwrap();
        lemma_occurrences(start, period, now, 1);
        let made = rule.due(now);
        if made > 0 {
            lemma_occurrences(start, period, now, made);
            Time::lemma_at(start.instant() + made * period, start.offset());
            assert(0 < made * period) by (nonlinear_arith)
                requires
                    1 <= made,
                    period > 0,
            ;
        }
    }
}

} // verus!
