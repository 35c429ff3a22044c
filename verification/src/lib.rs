//! The temporal engine of a task organizer: calendar-correct points in time
//! and spans between them, a recurrence generator that catches up on missed
//! occurrences, task visibility with snoozing and fade-out, and a filtered,
//! index-preserving view of the task list that supports reordering.

pub mod calendar;
pub mod data;
pub mod organizer;
pub mod periodic_task;
pub mod task;
pub mod text;
pub mod time;
pub mod views;

pub use data::{Data, FileError, FileErrorKind, Filters};
pub use organizer::Organizer;
pub use periodic_task::PeriodicTask;
pub use task::Task;
pub use time::{Duration, Time, TimeError};
pub use views::{Message, ViewType};
