//! The views of the organizer and the messages that each of them takes.

use crate::organizer::{Organizer, OrganizerView, Request};
use crate::time::Time;
use vstd::prelude::*;
use vstd::string::StringExecFns;

pub mod list_view;
pub mod periodic_tasks_management;
pub mod summary_view;

verus! {

/// The views between which the user chooses.
#[derive(Debug, Clone, Copy, PartialEq, Eq, Structural)]
pub enum ViewType {
    List,
    Summary,
    PeriodicTasksManagement,
}

impl ViewType {
    /// Every view, in the order in which they are offered.
    pub const ALL: [ViewType; 3] = [
        ViewType::List,
        ViewType::Summary,
        ViewType::PeriodicTasksManagement,
    ];

    /// The name of the view as the user reads it.
    pub open spec fn name(self) -> Seq<char> {
        match self {
            ViewType::List => "List"@,
            ViewType::Summary => "Summary"@,
            ViewType::PeriodicTasksManagement => "Periodic Tasks Management"@,
        }
    }

    /// The name of the view as the user reads it.
    pub fn to_string(&self) -> (text: String)
        ensures
            text@ == self.name(),
    {
        match self {
            ViewType::List => String::from_str("List"),
            ViewType::Summary => String::from_str("Summary"),
            ViewType::PeriodicTasksManagement => String::from_str("Periodic Tasks Management"),
        }
    }
}

/// A message to the organizer: a message to one of its views.
#[derive(Debug, Clone)]
pub enum Message {
    List(list_view::Message),
    Summary(summary_view::Message),
    PeriodicTasksManagement(periodic_tasks_management::Message),
}

impl Message {
    /// Whether the message can be applied to a list of `tasks` tasks and
    /// `rules` rules: a message for a task or a rule names one of the list.
    pub open spec fn fits(self, tasks: nat, rules: nat) -> bool {
        match self {
            Message::List(message) => message.fits(tasks),
            Message::Summary(_) => true,
            Message::PeriodicTasksManagement(message) => message.fits(rules),
        }
    }

    /// What the caller owes the organizer after the message.
    pub open spec fn request(self) -> Request {
        match self {
            Message::List(message) => message.request(),
            _ => Request::Save,
        }
    }
}

impl OrganizerView {
    /// The organizer after a message arrived at `now`: what the user was
    /// told before is cleared, and the view that the message is for applies
    /// it.
    pub open spec fn update(self, message: Message, now: Time) -> OrganizerView {
        let cleared = OrganizerView { error_text: None, ..self };
        match message {
            Message::List(message) => cleared.update_list_view(message, now),
            Message::Summary(message) => cleared.update_summary_view(message, now),
            Message::PeriodicTasksManagement(message) => cleared.update_periodic_tasks_manager(
                message,
                now,
            ),
        }
    }
}

impl Organizer {
    /// Applies a message that arrived at `now`, and says what the caller
    /// owes: to read the list where the message asks for it, else to write
    /// it. A message for a task or a rule must name one of the list.
    pub fn update_at(&mut self, message: Message, now: &Time) -> (request: Request)
        requires
            message.fits(old(self)@.data.tasks.len(), old(self)@.data.rules.len()),
        ensures
            final(self)@ == old(self)@.update(message, *now),
            request == message.request(),
    {
        self.error_text = None;
        match message {
            Message::List(message) => self.update_list_view_at(message, now),
            Message::Summary(message) => {
                self.update_summary_view_at(message, now);
                Request::Save
            },
            Message::PeriodicTasksManagement(message) => {
                self.update_periodic_tasks_manager_at(message, now);
                Request::Save
            },
        }
    }

    /// Applies a message at the time of the system clock.
    pub fn update(&mut self, message: Message) -> (request: Request)
        requires
            message.fits(old(self)@.data.tasks.len(), old(self)@.data.rules.len()),
        ensures
            exists|now: Time| now.wf() && final(self)@ == old(self)@.update(message, now),
            request == message.request(),
    {
        let now = Time::now();
        self.update_at(message, &now)
    }
}

} // verus!
