//! The view that manages the recurrence rules.

use crate::organizer::{Organizer, OrganizerView};
use crate::periodic_task;
use crate::time::Time;
use crate::views::ViewType;
use vstd::prelude::*;

verus! {

/// What a user can ask of the view that manages the recurrence rules.
#[derive(Debug, Clone)]
pub enum Message {
    SelectView(ViewType),
    Create,
    PeriodicTask(usize, periodic_task::Message),
}

impl Message {
    /// Whether the message can be applied to a list of `rules` rules: a
    /// message for a rule names a rule of the list.
    pub open spec fn fits(self, rules: nat) -> bool {
        self matches Message::PeriodicTask(position, _) ==> position < rules
    }
}

impl OrganizerView {
    /// The organizer after a message to the view of the rules arrived at
    /// `now`: a view is chosen, or a rule is created, changed or deleted.
    pub open spec fn update_periodic_tasks_manager(
        self,
        message: Message,
        now: Time,
    ) -> OrganizerView {
        match message {
            Message::SelectView(value) => OrganizerView { view_type: Some(value), ..self },
            Message::Create => OrganizerView { data: self.data.add_rule(now), ..self },
            Message::PeriodicTask(position, rule_message) => match rule_message {
                periodic_task::Message::DeleteTask => OrganizerView {
                    data: self.data.delete_rule(position as int),
                    ..self
                },
                _ => OrganizerView {
                    data: self.data.update_rule(position as int, rule_message),
                    ..self
                },
            },
        }
    }
}

impl Organizer {
    /// Applies a message to the view of the rules that arrived at `now`. A
    /// message for a rule must name a rule of the list.
    pub fn update_periodic_tasks_manager_at(&mut self, message: Message, now: &Time)
        requires
            message.fits(old(self)@.data.rules.len()),
        ensures
            final(self)@ == old(self)@.update_periodic_tasks_manager(message, *now),
    {
        match message {
            Message::SelectView(value) => {
                self.view_type = Some(value);
            },
            Message::Create => {
                self.data.add_rule_at(now);
            },
            Message::PeriodicTask(position, rule_message) => match rule_message {
                periodic_task::Message::DeleteTask => {
                    self.data.delete_rule(position);
                },
                _ => {
                    self.data.update_rule(position, rule_message);
                },
            },
        }
    }
}

} // verus!
