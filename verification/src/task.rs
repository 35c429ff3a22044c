//! A task, and when it is shown: completion with a fade-out, and snoozing.

use crate::text::{decimal_u32, parse_u32};
use crate::time::{clamped, Duration, Ratio, Time};
use vstd::prelude::*;
use vstd::string::StringExecFns;

verus! {

/// The minutes for which a completed task stays in sight while it fades.
pub const FADE_OUT_TIME: i64 = 60 * 24;

/// The fade-out window in seconds.
pub open spec fn fade_out_seconds() -> int {
    FADE_OUT_TIME * 60
}

/// The unit in which a snooze is counted.
#[derive(Debug, Clone, Copy, PartialEq, Eq, Structural)]
pub enum SnoozeDuration {
    Hour,
    Day,
    Week,
    Month,
}

impl SnoozeDuration {
    /// The hours of one unit. A month counts as thirty days.
    pub open spec fn hours(self) -> int {
        match self {
            SnoozeDuration::Hour => 1,
            SnoozeDuration::Day => 24,
            SnoozeDuration::Week => 168,
            SnoozeDuration::Month => 720,
        }
    }

    /// The seconds of `quantity` units.
    pub open spec fn seconds(self, quantity: u32) -> int {
        quantity * self.hours() * 3600
    }

    /// The span of `quantity` units.
    pub fn span(self, quantity: u32) -> (d: Duration)
        ensures
            d@ == self.seconds(quantity),
    {
        let hours: i64 = match self {
            SnoozeDuration::Hour => 1,
            SnoozeDuration::Day => 24,
            SnoozeDuration::Week => 24 * 7,
            SnoozeDuration::Month => 24 * 30,
        };
        let quantity: i64 = quantity as i64;
        assert(quantity * hours * 3600 <= 0xffff_ffff * 720 * 3600) by (nonlinear_arith)
            requires
                0 <= quantity <= 0xffff_ffff,
                1 <= hours <= 720,
        ;
        assert(0 <= quantity * hours <= 0xffff_ffff * 720) by (nonlinear_arith)
            requires
                0 <= quantity <= 0xffff_ffff,
                1 <= hours <= 720,
        ;
        Duration::from_hours(quantity * hours)
    }
}

/// What a user can ask of a task.
#[derive(Debug, Clone)]
pub enum Message {
    ToggleTaskCompletion(bool),
    TextInput(String),
    DeleteTask,
    AddSnoozeTime,
    SetSnoozeDuration(SnoozeDuration),
    SetSnoozeQuantity(String),
    Unsnooze,
}

/// The snooze of a task: whether its picker is open, the quantity chosen
/// there, and the time until which the task is hidden.
#[derive(Debug, Clone, Copy)]
pub struct SnoozeInformation {
    pub visible: bool,
    pub quantity: u32,
    pub snooze_until: Option<Time>,
}

/// A concrete to-do item.
#[derive(Debug, Clone)]
pub struct Task {
    pub id: usize,
    pub task_completed: bool,
    pub description: String,
    pub creation_time: Time,
    pub completion_time: Option<Time>,
    pub snooze_information: SnoozeInformation,
}

/// A task as a value: the description as a sequence of characters.
pub struct TaskView {
    pub id: usize,
    pub completed: bool,
    pub description: Seq<char>,
    pub creation_time: Time,
    pub completion_time: Option<Time>,
    pub snooze: SnoozeInformation,
}

impl View for Task {
    type V = TaskView;

    open spec fn view(&self) -> TaskView {
        TaskView {
            id: self.id,
            completed: self.task_completed,
            description: self.description@,
            creation_time: self.creation_time,
            completion_time: self.completion_time,
            snooze: self.snooze_information,
        }
    }
}

/// The quantity that a typed text stands for: the number where it is one,
/// else one.
pub open spec fn snooze_quantity(text: Seq<char>) -> u32 {
    if text.len() == 0 {
        1
    } else {
        match decimal_u32(text) {
            Some(n) => n,
            None => 1,
        }
    }
}

impl TaskView {
    /// A task as it is created at `now`: pending, undescribed, not snoozed.
    pub open spec fn fresh(id: usize, now: Time) -> TaskView {
        TaskView {
            id,
            completed: false,
            description: Seq::empty(),
            creation_time: now,
            completion_time: None,
            snooze: SnoozeInformation { visible: false, quantity: 1, snooze_until: None },
        }
    }

    /// Whether the task counts as pending at `now`: it is not completed, or
    /// it was completed less than the fade-out window ago.
    pub open spec fn visible_as_pending(self, now: Time) -> bool {
        !self.completed || match self.completion_time {
            Some(done) => now.instant() - done.instant() < fade_out_seconds(),
            None => true,
        }
    }

    /// Whether the task is snoozed at `now`.
    pub open spec fn hidden_because_of_snooze(self, now: Time) -> bool {
        match self.snooze.snooze_until {
            Some(until) => until.instant() > now.instant(),
            None => false,
        }
    }

    /// The seconds of the fade-out window that are left at `now`: all of
    /// them for a task that is not fading, and never fewer than none.
    pub open spec fn fade_left(self, now: Time) -> int {
        if !self.completed {
            fade_out_seconds()
        } else {
            match self.completion_time {
                Some(done) => {
                    let elapsed = now.instant() - done.instant();
                    if elapsed < fade_out_seconds() {
                        fade_out_seconds() - clamped(elapsed, 0, fade_out_seconds())
                    } else {
                        fade_out_seconds()
                    }
                },
                None => fade_out_seconds(),
            }
        }
    }

    /// The task with its completion set at `now`: the time is stamped when
    /// the task is completed and cleared when it is reopened.
    pub open spec fn set_completed(self, completed: bool, now: Time) -> TaskView {
        TaskView {
            completed,
            completion_time: if completed {
                Some(now)
            } else {
                None
            },
            ..self
        }
    }

    /// The task with a new description.
    pub open spec fn edit(self, description: Seq<char>) -> TaskView {
        TaskView { description, ..self }
    }

    /// The task with the snooze picker open.
    pub open spec fn add_snooze_time(self) -> TaskView {
        TaskView { snooze: SnoozeInformation { visible: true, ..self.snooze }, ..self }
    }

    /// The task with the quantity of the snooze picker set.
    pub open spec fn set_snooze_quantity(self, quantity: u32) -> TaskView {
        TaskView { snooze: SnoozeInformation { quantity, ..self.snooze }, ..self }
    }

    /// The time from which a new snooze counts: the end of the snooze that
    /// is set, or `now` where none is.
    pub open spec fn snooze_base(self, now: Time) -> Time {
        match self.snooze.snooze_until {
            Some(until) => until,
            None => now,
        }
    }

    /// The end of the snooze after the chosen quantity of `unit` was added.
    /// It stays at the offset of the base, and stops at the last time that
    /// can be held there.
    pub open spec fn snoozed_until(self, unit: SnoozeDuration, now: Time) -> Time {
        let base = self.snooze_base(now);
        Time::at(
            clamped(
                base.instant() + unit.seconds(self.snooze.quantity),
                Time::earliest(base.offset()),
                Time::latest(base.offset()),
            ),
            base.offset(),
        )
    }

    /// The task snoozed for the chosen quantity of `unit` more, with the
    /// picker closed.
    pub open spec fn set_snooze_duration(self, unit: SnoozeDuration, now: Time) -> TaskView {
        TaskView {
            snooze: SnoozeInformation {
                visible: false,
                snooze_until: Some(self.snoozed_until(unit, now)),
                ..self.snooze
            },
            ..self
        }
    }

    /// The task with no snooze and the picker closed.
    pub open spec fn unsnooze(self) -> TaskView {
        TaskView {
            snooze: SnoozeInformation { visible: false, snooze_until: None, ..self.snooze },
            ..self
        }
    }

    /// The task after a message that arrived at `now`. A deletion is for
    /// the list that holds the task and is not a message to the task.
    pub open spec fn update(self, message: Message, now: Time) -> TaskView {
        match message {
            Message::ToggleTaskCompletion(completed) => self.set_completed(completed, now),
            Message::TextInput(description) => self.edit(description@),
            Message::DeleteTask => self,
            Message::AddSnoozeTime => self.add_snooze_time(),
            Message::SetSnoozeDuration(unit) => self.set_snooze_duration(unit, now),
            Message::SetSnoozeQuantity(text) => self.set_snooze_quantity(snooze_quantity(text@)),
            Message::Unsnooze => self.unsnooze(),
        }
    }
}

impl Task {
    /// A new task made at `now`: pending, undescribed, not snoozed.
    pub fn new_at(id: usize, now: Time) -> (task: Task)
        ensures
            task@ == TaskView::fresh(id, now),
    {
        Task {
            id,
            task_completed: false,
            description: String::new(),
            creation_time: now,
            completion_time: None,
            snooze_information: SnoozeInformation {
                visible: false,
                quantity: 1,
                snooze_until: None,
            },
        }
    }

    /// A new task made at the time of the system clock.
    pub fn new(id: usize) -> (task: Task)
        ensures
            task@ == TaskView::fresh(id, task.creation_time),
    {
        Task::new_at(id, Time::now())
    }

    /// Whether the task is completed.
    pub fn completed(&self) -> (b: bool)
        ensures
            b == self@.completed,
    {
        self.task_completed
    }

    /// The description of the task.
    pub fn description(&self) -> (text: &str)
        ensures
            text@ == self@.description,
    {
        self.description.as_str()
    }

    /// Replaces the description.
    pub fn edit(&mut self, description: &str)
        ensures
            final(self)@ == old(self)@.edit(description@),
    {
        self.description = String::from_str(description);
    }

    /// Whether the task counts as pending at `now`.
    pub fn visible_as_pending_at(&self, now: &Time) -> (b: bool)
        ensures
            b == self@.visible_as_pending(*now),
    {
        if !self.task_completed {
            true
        } else {
            match &self.completion_time {
                Some(done) => now.since(done).num_seconds() < FADE_OUT_TIME * 60,
                None => true,
            }
        }
    }

    /// Whether the task counts as pending at the time of the system clock.
    /// A task that is not completed, or has no completion time, does so
    /// whatever the clock says.
    pub fn visible_as_pending(&self) -> (b: bool)
        ensures
            !self@.completed || self@.completion_time is None ==> b,
            exists|now: Time| now.wf() && b == self@.visible_as_pending(now),
    {
        let now = Time::now();
        self.visible_as_pending_at(&now)
    }

    /// Whether the task is snoozed at `now`.
    pub fn hidden_because_of_snooze_at(&self, now: &Time) -> (b: bool)
        ensures
            b == self@.hidden_because_of_snooze(*now),
    {
        match &self.snooze_information.snooze_until {
            Some(until) => now.is_before(until),
            None => false,
        }
    }

    /// Whether the task is snoozed at the time of the system clock. A task
    /// without a snooze is not, whatever the clock says.
    pub fn hidden_because_of_snooze(&self) -> (b: bool)
        ensures
            self@.snooze.snooze_until is None ==> !b,
            exists|now: Time| now.wf() && b == self@.hidden_because_of_snooze(now),
    {
        let now = Time::now();
        self.hidden_because_of_snooze_at(&now)
    }

    /// The opacity with which the task is drawn at `now`, as the fraction of
    /// the fade-out window that is left: one for a task that is not fading,
    /// falling to nothing over the window, and never outside zero to one.
    pub fn opacity_at(&self, now: &Time) -> (r: Ratio)
        ensures
            r.denominator == fade_out_seconds(),
            r.numerator == self@.fade_left(*now),
            0 <= r.numerator <= r.denominator,
    {
        let window = Duration::from_minutes(FADE_OUT_TIME);
        let full = Ratio { numerator: FADE_OUT_TIME * 60, denominator: FADE_OUT_TIME * 60 };
        if !self.task_completed {
            return full;
        }
        match &self.completion_time {
            Some(done) => {
                let elapsed = now.since(done);
                if elapsed.num_seconds() < window.num_seconds() {
                    match elapsed.checked_div(&window) {
                        Ok(part) => Ratio {
                            numerator: if part.numerator < 0 {
                                part.denominator
                            } else {
                                part.denominator - part.numerator
                            },
                            denominator: part.denominator,
                        },
                        Err(_) => full,
                    }
                } else {
                    full
                }
            },
            None => full,
        }
    }

    /// Sets the completion at `now`: the time is stamped when the task is
    /// completed and cleared when it is reopened.
    pub fn set_completed_at(&mut self, completed: bool, now: Time)
        ensures
            final(self)@ == old(self)@.set_completed(completed, now),
    {
        self.task_completed = completed;
        self.completion_time = if completed {
            Some(now)
        } else {
            None
        };
    }

    /// Sets the completion at the time of the system clock.
    pub fn set_completed(&mut self, completed: bool)
        ensures
            final(self)@.completed == completed,
            final(self)@.completion_time is Some == completed,
            final(self)@ == (TaskView {
                completed,
                completion_time: final(self)@.completion_time,
                ..old(self)@
            }),
    {
        self.set_completed_at(completed, Time::now());
    }

    /// Opens the snooze picker.
    pub fn add_snooze_time(&mut self)
        ensures
            final(self)@ == old(self)@.add_snooze_time(),
    {
        self.snooze_information.visible = true;
    }

    /// Sets the quantity of the snooze picker from a typed text: the number
    /// where the text is one, else one.
    pub fn set_snooze_quantity(&mut self, text: &str)
        ensures
            final(self)@ == old(self)@.set_snooze_quantity(snooze_quantity(text@)),
    {
        let quantity: u32 = if text.is_empty() {
            1
        } else {
            match parse_u32(text) {
                Some(n) => n,
                None => 1,
            }
        };
        self.snooze_information.quantity = quantity;
    }

    /// Snoozes the task for the chosen quantity of `unit`, counted from the
    /// end of the snooze that is set, or from `now` where none is, and closes
    /// the picker.
    pub fn set_snooze_duration(&mut self, unit: SnoozeDuration, now: Time)
        ensures
            final(self)@ == old(self)@.set_snooze_duration(unit, now),
    {
        let base = match self.snooze_information.snooze_until {
            Some(until) => until,
            None => now,
        };
        let span = unit.span(self.snooze_information.quantity);
        let until = base.saturating_add(&span);
        proof {
            Time::lemma_at(until.instant(), until.offset());
            Time::lemma_determined(until, old(self)@.snoozed_until(unit, now));
        }
        self.snooze_information.visible = false;
        self.snooze_information.snooze_until = Some(until);
    }

    /// Ends the snooze and closes the picker.
    pub fn unsnooze(&mut self)
        ensures
            final(self)@ == old(self)@.unsnooze(),
    {
        self.snooze_information.visible = false;
        self.snooze_information.snooze_until = None;
    }

    /// Applies a message that arrived at `now`. A deletion is for the list
    /// that holds the task and must not be sent to the task.
    pub fn update_at(&mut self, message: Message, now: Time)
        requires
            !(message is DeleteTask),
        ensures
            final(self)@ == old(self)@.update(message, now),
    {
        match message {
            Message::ToggleTaskCompletion(completed) => self.set_completed_at(completed, now),
            Message::TextInput(description) => self.edit(description.as_str()),
            Message::DeleteTask => {},
            Message::AddSnoozeTime => self.add_snooze_time(),
            Message::SetSnoozeDuration(unit) => self.set_snooze_duration(unit, now),
            Message::SetSnoozeQuantity(text) => self.set_snooze_quantity(text.as_str()),
            Message::Unsnooze => self.unsnooze(),
        }
    }

    /// Applies a message at the time of the system clock. A deletion must
    /// not be sent to the task.
    pub fn update(&mut self, message: Message)
        requires
            !(message is DeleteTask),
        ensures
            exists|now: Time| now.wf() && final(self)@ == old(self)@.update(message, now),
    {
        let now = Time::now();
        self.update_at(message, now);
    }
}

/// Snoozes stack: a second snooze counts from the end of the first one,
/// whenever it is asked for, so that the task stays hidden for the sum of
/// the two, as long as that end can be held.
pub proof fn lemma_snoozes_stack(
    task: TaskView,
    first: SnoozeDuration,
    second: SnoozeDuration,
    now: Time,
    later: Time,
)
    requires
        task.snooze_base(now).wf(),
        task.snooze_base(now).instant() + first.seconds(task.snooze.quantity) + second.seconds(
            task.snooze.quantity,
        ) <= Time::latest(task.snooze_base(now).offset()),
    ensures
        task.set_snooze_duration(first, now).set_snooze_duration(second, later).snooze.snooze_until
            == Some(
            Time::at(
                task.snooze_base(now).instant() + first.seconds(task.snooze.quantity)
                    + second.seconds(task.snooze.quantity),
                task.snooze_base(now).offset(),
            ),
        ),
        task.snooze.quantity > 0 ==> task.set_snooze_duration(first, now).hidden_because_of_snooze(
            task.snooze_base(now),
        ),
{
    let base = task.snooze_base(now);
    let quantity = task.snooze.quantity;
    assert(first.seconds(quantity) >= 0 && second.seconds(quantity) >= 0
        && (quantity > 0 ==> first.seconds(quantity) > 0)) by (nonlinear_arith)
        requires
            quantity >= 0,
            first.seconds(quantity) == quantity * first.hours() * 3600,
            second.seconds(quantity) == quantity * second.hours() * 3600,
            first.hours() >= 1,
            second.hours() >= 1,
    ;
    Time::lemma_at(base.instant() + first.seconds(quantity), base.offset());
}

} // verus!
