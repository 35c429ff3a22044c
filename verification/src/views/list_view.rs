//! The list view: the tasks that are shown, their filters and their order.

use crate::data::{DataView, Filters};
use crate::organizer::{Organizer, OrganizerView, Request};
use crate::task;
use crate::time::Time;
use crate::views::ViewType;
use vstd::prelude::*;

verus! {

/// What a user can ask of the list view.
#[derive(Debug, Clone)]
pub enum Message {
    AddTask,
    Task(usize, task::Message),
    Load,
    UpdateSaveFileName(String),
    Save,
    ToggleActiveFilter(bool),
    ToggleCompleteFilter(bool),
    SwapWithPrevious(usize),
    SwapWithNext(usize),
    SelectView(ViewType),
}

impl Message {
    /// Whether the message can be applied to a list of `tasks` tasks: a
    /// message for a task names a task of the list.
    pub open spec fn fits(self, tasks: nat) -> bool {
        self matches Message::Task(position, _) ==> position < tasks
    }

    /// What the caller owes the organizer after the message: to read the
    /// list where that was asked, else to write it.
    pub open spec fn request(self) -> Request {
        match self {
            Message::Load => Request::Load,
            _ => Request::Save,
        }
    }
}

impl OrganizerView {
    /// The organizer after a message to the list view arrived at `now`.
    ///
    /// First every rule gives the tasks that are due. Then the message is
    /// applied: a task is added, changed or deleted, the name of the file is
    /// set, a filter is set, a shown task moves one place among the shown
    /// tasks, or a view is chosen. Loading and saving change nothing here.
    pub open spec fn update_list_view(self, message: Message, now: Time) -> OrganizerView {
        let data = self.data.materialize(now);
        match message {
            Message::AddTask => OrganizerView { data: data.add_task(now), ..self },
            Message::Task(position, task_message) => match task_message {
                task::Message::DeleteTask => OrganizerView {
                    data: data.delete_task(position as int),
                    ..self
                },
                _ => OrganizerView {
                    data: data.update_task(position as int, task_message, now),
                    ..self
                },
            },
            Message::Load => OrganizerView { data, ..self },
            Message::UpdateSaveFileName(file_name) => OrganizerView {
                data,
                file_name: Some(file_name@),
                ..self
            },
            Message::Save => OrganizerView { data, ..self },
            Message::ToggleActiveFilter(value) => OrganizerView {
                data: DataView { filters: Filters { todo: value, ..data.filters }, ..data },
                ..self
            },
            Message::ToggleCompleteFilter(value) => OrganizerView {
                data: DataView { filters: Filters { complete: value, ..data.filters }, ..data },
                ..self
            },
            Message::SwapWithPrevious(index) => OrganizerView {
                data: data.swap_with_previous(index as int, now),
                ..self
            },
            Message::SwapWithNext(index) => OrganizerView {
                data: data.swap_with_next(index as int, now),
                ..self
            },
            Message::SelectView(value) => OrganizerView { data, view_type: Some(value), ..self },
        }
    }
}

impl Organizer {
    /// Applies a message to the list view that arrived at `now`, and says
    /// what the caller owes: to read the list for a `Load`, else to write
    /// it. A message for a task must name a task of the list.
    pub fn update_list_view_at(&mut self, message: Message, now: &Time) -> (request: Request)
        requires
            message.fits(old(self)@.data.tasks.len()),
        ensures
            final(self)@ == old(self)@.update_list_view(message, *now),
            request == message.request(),
    {
        self.data.materialize(now);
        proof {
            crate::data::lemma_received_keeps(
                old(self)@.data.tasks,
                old(self)@.data.rules,
                *now,
                old(self)@.data.rules.len() as int,
            );
        }
        match message {
            Message::AddTask => {
                self.data.add_task_at(*now);
                Request::Save
            },
            Message::Task(position, task_message) => {
                match task_message {
                    task::Message::DeleteTask => {
                        self.data.delete_task(position);
                    },
                    _ => {
                        self.data.update_task_at(position, task_message, *now);
                    },
                }
                Request::Save
            },
            Message::Load => Request::Load,
            Message::UpdateSaveFileName(file_name) => {
                self.file_name = Some(file_name);
                Request::Save
            },
            Message::Save => Request::Save,
            Message::ToggleActiveFilter(value) => {
                self.data.filters.todo = value;
                Request::Save
            },
            Message::ToggleCompleteFilter(value) => {
                self.data.filters.complete = value;
                Request::Save
            },
            Message::SwapWithPrevious(index) => {
                self.data.swap_with_previous_at(index, now);
                Request::Save
            },
            Message::SwapWithNext(index) => {
                self.data.swap_with_next_at(index, now);
                Request::Save
            },
            Message::SelectView(value) => {
                self.view_type = Some(value);
                Request::Save
            },
        }
    }
}

} // verus!
