//! The task list: its filters, the projection of the tasks that are shown,
//! reordering through that projection, and the tasks that the recurrence
//! rules add.

use crate::periodic_task::{PeriodicTask, PeriodicTaskView};
use crate::task::{Task, TaskView};
use crate::text::{extension_of, path_extension};
use crate::time::Time;
use vstd::prelude::*;
use vstd::string::StringExecFns;

verus! {

/// Swaps two elements of a slice, as `<[T]>::swap` of the standard library
/// documents it: the elements at `a` and `b` change places and the others
/// stay; out of bounds it panics.
pub assume_specification<T>[ <[T]>::swap ](slice: &mut [T], a: usize, b: usize)
    requires
        a < old(slice)@.len(),
        b < old(slice)@.len(),
    ensures
        final(slice)@ == old(slice)@.update(a as int, old(slice)@[b as int]).update(
            b as int,
            old(slice)@[a as int],
        ),
;

/// The error of `serde_json`, carried through as it is.
#[verifier::external_type_specification]
#[verifier::external_body]
pub struct ExJsonError(serde_json::Error);

/// Writes an error of `serde_json` out through its `Display`. Nothing is
/// promised of the text.
#[verifier::external_body]
fn json_error_text(error: &serde_json::Error) -> (text: String) {
    error.to_string()
}

/// What went wrong with a file of tasks.
#[derive(Debug, Clone, Copy, PartialEq, Eq, Structural)]
pub enum FileErrorKind {
    /// The file could not be read.
    Load,
    /// The file does not hold a task list, or the list could not be written
    /// out.
    Serialization,
    /// The file could not be written, or its name is not that of a task
    /// list.
    Write,
}

/// The error of loading or saving a task list: a message for the user, and
/// its kind.
#[derive(Debug)]
pub struct FileError {
    pub message: String,
    pub kind: FileErrorKind,
}

impl From<serde_json::Error> for FileError {
    /// An error of `serde_json` is a serialization failure with the
    /// message of that error.
    fn from(json_error: serde_json::Error) -> (error: FileError)
        ensures
            error.kind == FileErrorKind::Serialization,
    {
        FileError {
            message: json_error_text(&json_error),
            kind: FileErrorKind::Serialization,
        }
    }
}

impl vstd::std_specs::convert::FromSpecImpl<serde_json::Error> for FileError {
    open spec fn obeys_from_spec() -> bool {
        false
    }

    open spec fn from_spec(json_error: serde_json::Error) -> FileError {
        arbitrary()
    }
}

/// The extension of the files that hold a task list.
pub open spec fn list_extension() -> Seq<char> {
    "ogz"@
}

/// The name of the file that holds the task list called `file_name`: the
/// name itself where it ends in the extension of task lists, the name with
/// that extension added where it has none, and none where it has another.
pub open spec fn list_file_name(file_name: Seq<char>) -> Option<Seq<char>> {
    match path_extension(file_name) {
        Some(extension) => if extension == list_extension() {
            Some(file_name)
        } else {
            None
        },
        None => Some(file_name + ".ogz"@),
    }
}

/// Which tasks are shown.
#[derive(Debug, Clone, Copy, PartialEq, Eq, Structural)]
pub struct Filters {
    /// Show the completed tasks.
    pub complete: bool,
    /// Show the tasks that count as pending.
    pub todo: bool,
    /// Show the snoozed tasks too.
    pub snoozed: bool,
}

/// The task list with its recurrence rules and filters.
#[derive(Debug)]
pub struct Data {
    pub tasks: Vec<Task>,
    pub periodic_tasks: Vec<PeriodicTask>,
    pub filters: Filters,
}

/// The task list as a value.
pub struct DataView {
    pub tasks: Seq<TaskView>,
    pub rules: Seq<PeriodicTaskView>,
    pub filters: Filters,
}

impl View for Data {
    type V = DataView;

    open spec fn view(&self) -> DataView {
        DataView {
            tasks: self.tasks@.map_values(|task: Task| task@),
            rules: self.periodic_tasks@.map_values(|rule: PeriodicTask| rule@),
            filters: self.filters,
        }
    }
}

impl TaskView {
    /// Whether the filters show the task at `now`: it is completed and the
    /// completed tasks are shown, or it counts as pending and the pending
    /// tasks are shown; and it is not snoozed, unless the snoozed tasks are
    /// shown too.
    pub open spec fn shown(self, filters: Filters, now: Time) -> bool {
        &&& (self.completed && filters.complete) || (self.visible_as_pending(now) && filters.todo)
        &&& !self.hidden_because_of_snooze(now) || filters.snoozed
    }

    /// Whether the task was completed strictly between two times.
    pub open spec fn completed_between(self, first: Time, last: Time) -> bool {
        self.completed && match self.completion_time {
            Some(done) => first.instant() < done.instant() < last.instant(),
            None => false,
        }
    }
}

/// The tasks that the filters show at `now`, as a predicate.
pub open spec fn shown_by(filters: Filters, now: Time) -> spec_fn(TaskView) -> bool {
    |task: TaskView| task.shown(filters, now)
}

/// The tasks completed strictly between two times, as a predicate.
pub open spec fn completed_in(first: Time, last: Time) -> spec_fn(TaskView) -> bool {
    |task: TaskView| task.completed_between(first, last)
}

/// The positions, among the first `n` tasks, of the tasks to keep, in
/// ascending order.
pub open spec fn positions_upto(
    tasks: Seq<TaskView>,
    keep: spec_fn(TaskView) -> bool,
    n: int,
) -> Seq<usize>
    decreases n,
{
    if n <= 0 {
        Seq::empty()
    } else {
        let before = positions_upto(tasks, keep, n - 1);
        if keep(tasks[n - 1]) {
            before.push((n - 1) as usize)
        } else {
            before
        }
    }
}

/// The positions of the tasks to keep, in ascending order.
pub open spec fn positions(tasks: Seq<TaskView>, keep: spec_fn(TaskView) -> bool) -> Seq<usize> {
    positions_upto(tasks, keep, tasks.len() as int)
}

/// The id that the list gives to the tasks of the rule at `index` when it
/// holds `size` tasks: one more than their sum, as far as ids go.
pub open spec fn list_id(size: int, index: int) -> usize {
    if size + index + 1 <= usize::MAX {
        (size + index + 1) as usize
    } else {
        usize::MAX
    }
}

/// The tasks that a rule gives at `now`, in the order of time, under the id
/// that the list gives them.
pub open spec fn emitted_by(rule: PeriodicTaskView, now: Time, id: usize) -> Seq<TaskView> {
    Seq::new(rule.due(now) as nat, |k: int| TaskView { id, ..rule.occurrence(k + 1, now) })
}

/// The tasks of a list after the first `n` rules gave theirs at `now`: the
/// tasks that were there, then those of each rule in the order of the rules.
pub open spec fn received(
    tasks: Seq<TaskView>,
    rules: Seq<PeriodicTaskView>,
    now: Time,
    n: int,
) -> Seq<TaskView>
    decreases n,
{
    if n <= 0 {
        tasks
    } else {
        let before = received(tasks, rules, now, n - 1);
        before + emitted_by(rules[n - 1], now, list_id(before.len() as int, n - 1))
    }
}

/// The positions kept are exactly those of the tasks to keep: each lies in
/// the list and holds a task to keep, they ascend strictly, and no task to
/// keep is left out.
pub proof fn lemma_positions(tasks: Seq<TaskView>, keep: spec_fn(TaskView) -> bool, n: int)
    requires
        0 <= n <= tasks.len() <= usize::MAX,
    ensures
        positions_upto(tasks, keep, n).len() <= n,
        forall|k: int|
            0 <= k < positions_upto(tasks, keep, n).len() ==> {
                let p = #[trigger] positions_upto(tasks, keep, n)[k];
                0 <= p < n && keep(tasks[p as int])
            },
        forall|j: int, k: int|
            0 <= j < k < positions_upto(tasks, keep, n).len() ==> positions_upto(tasks, keep, n)[j]
                < positions_upto(tasks, keep, n)[k],
        forall|i: int|
            0 <= i < n && keep(#[trigger] tasks[i]) ==> positions_upto(tasks, keep, n).contains(
                i as usize,
            ),
    decreases n,
{
    if n > 0 {
        lemma_positions(tasks, keep, n - 1);
        let before = positions_upto(tasks, keep, n - 1);
        let all = positions_upto(tasks, keep, n);
        if keep(tasks[n - 1]) {
            assert forall|i: int| 0 <= i < n && keep(#[trigger] tasks[i]) implies all.contains(
                i as usize,
            ) by {
                if i < n - 1 {
                    let k = choose|k: int| 0 <= k < before.len() && before[k] == i as usize;
                    assert(all[k] == i as usize);
                } else {
                    assert(all[all.len() - 1] == i as usize);
                }
            }
        }
    }
}

impl DataView {
    /// The visible projection: the positions of the tasks that the filters
    /// show at `now`, in the order of the list.
    pub open spec fn visible(self, now: Time) -> Seq<usize> {
        positions(self.tasks, shown_by(self.filters, now))
    }

    /// The list with a new task made at `now` at its end, the position as
    /// its id.
    pub open spec fn add_task(self, now: Time) -> DataView {
        DataView { tasks: self.tasks.push(TaskView::fresh(self.tasks.len() as usize, now)), ..self }
    }

    /// The list without the task at a position.
    pub open spec fn delete_task(self, position: int) -> DataView {
        DataView { tasks: self.tasks.remove(position), ..self }
    }

    /// The list after a message arrived at `now` for the task at a
    /// position.
    pub open spec fn update_task(
        self,
        position: int,
        message: crate::task::Message,
        now: Time,
    ) -> DataView {
        DataView {
            tasks: self.tasks.update(position, self.tasks[position].update(message, now)),
            ..self
        }
    }

    /// The list with a new rule without a description, made at `now`, at
    /// the end of its rules.
    pub open spec fn add_rule(self, now: Time) -> DataView {
        DataView { rules: self.rules.push(PeriodicTaskView::fresh(Seq::empty(), now)), ..self }
    }

    /// The list without the rule at a position.
    pub open spec fn delete_rule(self, position: int) -> DataView {
        DataView { rules: self.rules.remove(position), ..self }
    }

    /// The list after a message arrived for the rule at a position.
    pub open spec fn update_rule(
        self,
        position: int,
        message: crate::periodic_task::Message,
    ) -> DataView {
        DataView {
            rules: self.rules.update(position, self.rules[position].update(message)),
            ..self
        }
    }

    /// The list with the tasks at two positions in each other's place.
    pub open spec fn swapped(self, a: int, b: int) -> DataView {
        DataView { tasks: self.tasks.update(a, self.tasks[b]).update(b, self.tasks[a]), ..self }
    }

    /// The list after the task shown at `visible_index` moved one place up
    /// among the tasks shown at `now`: it changed places with the shown task
    /// before it. The first shown task, and an index beyond the projection,
    /// leave the list as it is.
    pub open spec fn swap_with_previous(self, visible_index: int, now: Time) -> DataView {
        let shown = self.visible(now);
        if 0 < visible_index < shown.len() {
            self.swapped(shown[visible_index] as int, shown[visible_index - 1] as int)
        } else {
            self
        }
    }

    /// The list after the task shown at `visible_index` moved one place down
    /// among the tasks shown at `now`: it changed places with the shown task
    /// after it. The last shown task, and an index beyond the projection,
    /// leave the list as it is.
    pub open spec fn swap_with_next(self, visible_index: int, now: Time) -> DataView {
        let shown = self.visible(now);
        if 0 <= visible_index && visible_index + 1 < shown.len() {
            self.swapped(shown[visible_index] as int, shown[visible_index + 1] as int)
        } else {
            self
        }
    }

    /// The list after every rule gave the tasks that are due at `now`: the
    /// tasks that were there stay in place, those of the rules follow in the
    /// order of the rules, and every rule has its watermark moved.
    pub open spec fn materialize(self, now: Time) -> DataView {
        DataView {
            tasks: received(self.tasks, self.rules, now, self.rules.len() as int),
            rules: self.rules.map_values(|rule: PeriodicTaskView| rule.materialized(now)),
            ..self
        }
    }
}

/// The tasks that were in the list stay in place when the rules give
/// theirs.
pub proof fn lemma_received_keeps(
    tasks: Seq<TaskView>,
    rules: Seq<PeriodicTaskView>,
    now: Time,
    n: int,
)
    ensures
        received(tasks, rules, now, n).len() >= tasks.len(),
        received(tasks, rules, now, n).subrange(0, tasks.len() as int) == tasks,
    decreases n,
{
    if n > 0 {
        lemma_received_keeps(tasks, rules, now, n - 1);
    }
}

/// Rules of which none has a task due leave the tasks of the list as they
/// are.
proof fn lemma_received_nothing(
    tasks: Seq<TaskView>,
    rules: Seq<PeriodicTaskView>,
    now: Time,
    n: int,
)
    requires
        n <= rules.len(),
        forall|i: int| 0 <= i < n ==> (#[trigger] rules[i]).due(now) == 0,
    ensures
        received(tasks, rules, now, n) == tasks,
    decreases n,
{
    if n > 0 {
        lemma_received_nothing(tasks, rules, now, n - 1);
        assert(received(tasks, rules, now, n) =~= tasks);
    }
}

/// Letting the rules give their tasks is idempotent: right after they gave
/// the tasks due at `now`, doing so again at `now` changes nothing.
pub proof fn lemma_materialize_twice(data: DataView, now: Time)
    requires
        now.wf(),
        forall|i: int| 0 <= i < data.rules.len() ==> (#[trigger] data.rules[i]).wf(),
    ensures
        data.materialize(now).materialize(now) == data.materialize(now),
{
    let once = data.materialize(now);
    assert forall|i: int| 0 <= i < once.rules.len() implies (#[trigger] once.rules[i]).due(now)
        == 0 && once.rules[i].materialized(now) == once.rules[i] by {
        crate::periodic_task::lemma_materialize_idempotent(data.rules[i], now);
    }
    lemma_received_nothing(once.tasks, once.rules, now, once.rules.len() as int);
    assert(once.materialize(now).rules =~= once.rules);
}

/// The visible projection holds exactly the tasks that the filters show:
/// every position in it lies in the list and holds a shown task, the
/// positions ascend strictly, and no shown task is left out.
pub proof fn lemma_visible(data: DataView, now: Time)
    requires
        data.tasks.len() <= usize::MAX,
    ensures
        data.visible(now).len() <= data.tasks.len(),
        forall|k: int|
            0 <= k < data.visible(now).len() ==> {
                let p = #[trigger] data.visible(now)[k];
                p < data.tasks.len() && data.tasks[p as int].shown(data.filters, now)
            },
        forall|j: int, k: int|
            0 <= j < k < data.visible(now).len() ==> data.visible(now)[j] < data.visible(now)[k],
        forall|i: int|
            0 <= i < data.tasks.len() && (#[trigger] data.tasks[i]).shown(data.filters, now)
                ==> data.visible(now).contains(i as usize),
{
    lemma_positions(data.tasks, shown_by(data.filters, now), data.tasks.len() as int);
}

/// Moving a shown task changes the order of the list and nothing else: the
/// list holds the same tasks as often as before, and the rules and filters
/// stay. The last shown task does not move down, nor the first one up; and
/// moving a task down is moving the next shown task up.
pub proof fn lemma_swaps(data: DataView, visible_index: int, now: Time)
    requires
        data.tasks.len() <= usize::MAX,
        0 <= visible_index,
    ensures
        data.swap_with_next(visible_index, now).tasks.to_multiset() == data.tasks.to_multiset(),
        data.swap_with_previous(visible_index, now).tasks.to_multiset()
            == data.tasks.to_multiset(),
        data.swap_with_next(visible_index, now).rules == data.rules,
        data.swap_with_next(visible_index, now).filters == data.filters,
        visible_index + 1 >= data.visible(now).len() ==> data.swap_with_next(visible_index, now)
            == data,
        data.swap_with_previous(0, now) == data,
        data.swap_with_next(visible_index, now) == data.swap_with_previous(visible_index + 1, now),
{
    lemma_visible(data, now);
    let shown = data.visible(now);
    if visible_index + 1 < shown.len() {
        let a = shown[visible_index] as int;
        let b = shown[visible_index + 1] as int;
        lemma_swapped(data.tasks, a, b);
        assert(data.tasks.update(a, data.tasks[b]).update(b, data.tasks[a])
            =~= data.tasks.update(b, data.tasks[a]).update(a, data.tasks[b]));
    }
    if 0 < visible_index < shown.len() {
        let a = shown[visible_index] as int;
        let b = shown[visible_index - 1] as int;
        lemma_swapped(data.tasks, a, b);
    }
}

/// A list with two of its tasks in each other's place holds the same tasks
/// as often as before.
proof fn lemma_swapped(tasks: Seq<TaskView>, a: int, b: int)
    requires
        0 <= a < tasks.len(),
        0 <= b < tasks.len(),
    ensures
        tasks.update(a, tasks[b]).update(b, tasks[a]).to_multiset() == tasks.to_multiset(),
{
    broadcast use vstd::multiset::group_multiset_axioms;

    let once = tasks.update(a, tasks[b]);
    vstd::seq_lib::to_multiset_update(tasks, a, tasks[b]);
    vstd::seq_lib::to_multiset_update(once, b, tasks[a]);
    vstd::seq_lib::to_multiset_contains(tasks, tasks[a]);
    vstd::seq_lib::to_multiset_contains(tasks, tasks[b]);
}

impl Data {
    /// An empty list that shows the pending tasks only.
    pub fn new() -> (data: Data)
        ensures
            data@ == (DataView {
                tasks: Seq::empty(),
                rules: Seq::empty(),
                filters: Filters { complete: false, todo: true, snoozed: false },
            }),
    {
        let data = Data {
            tasks: Vec::new(),
            periodic_tasks: Vec::new(),
            filters: Filters { complete: false, todo: true, snoozed: false },
        };
        assert(data@.tasks =~= Seq::empty());
        assert(data@.rules =~= Seq::empty());
        data
    }

    /// The positions of the tasks that the filters show at `now`, in the
    /// order of the list.
    pub fn visible_positions_at(&self, now: &Time) -> (shown: Vec<usize>)
        ensures
            shown@ == self@.visible(*now),
    {
        let mut shown: Vec<usize> = Vec::new();
        let mut i: usize = 0;
        while i < self.tasks.len()
            invariant
                i <= self.tasks@.len(),
                shown@ == positions_upto(self@.tasks, shown_by(self.filters, *now), i as int),
            decreases self.tasks@.len() - i,
        {
            let task = &self.tasks[i];
            let listed = (task.completed() && self.filters.complete) || (task.visible_as_pending_at(
                now,
            ) && self.filters.todo);
            let awake = !task.hidden_because_of_snooze_at(now) || self.filters.snoozed;
            if listed && awake {
                shown.push(i);
            }
            i += 1;
        }
        shown
    }

    /// The visible projection at `now`: the tasks that the filters show, in
    /// the order of the list, each with its position in the list.
    pub fn visible_tasks_at<'a>(&'a self, now: &Time) -> (shown: Vec<(usize, &'a Task)>)
        ensures
            shown@.len() == self@.visible(*now).len(),
            forall|k: int|
                0 <= k < shown@.len() ==> {
                    let p = self@.visible(*now)[k];
                    &&& p < self.tasks@.len()
                    &&& (#[trigger] shown@[k]).0 == p
                    &&& *shown@[k].1 == self.tasks@[p as int]
                },
    {
        let places = self.visible_positions_at(now);
        let count = self.tasks.len();
        proof {
            lemma_positions(self@.tasks, shown_by(self.filters, *now), count as int);
        }
        let mut shown: Vec<(usize, &'a Task)> = Vec::new();
        let mut k: usize = 0;
        while k < places.len()
            invariant
                k <= places@.len(),
                places@ == self@.visible(*now),
                forall|j: int|
                    0 <= j < places@.len() ==> (#[trigger] places@[j]) < self.tasks@.len(),
                shown@.len() == k,
                forall|j: int|
                    0 <= j < k ==> (#[trigger] shown@[j]).0 == places@[j] && *shown@[j].1
                        == self.tasks@[places@[j] as int],
            decreases places@.len() - k,
        {
            let p = places[k];
            shown.push((p, &self.tasks[p]));
            k += 1;
        }
        shown
    }

    /// The visible projection at the time of the system clock.
    pub fn visible_tasks<'a>(&'a self) -> (shown: Vec<(usize, &'a Task)>)
        ensures
            exists|now: Time|
                {
                    &&& now.wf()
                    &&& shown@.len() == self@.visible(now).len()
                    &&& forall|k: int|
                        0 <= k < shown@.len() ==> (#[trigger] shown@[k]).0 == self@.visible(
                            now,
                        )[k]
                },
            forall|k: int|
                0 <= k < shown@.len() ==> (#[trigger] shown@[k]).0 < self.tasks@.len()
                    && *shown@[k].1 == self.tasks@[shown@[k].0 as int],
    {
        let now = Time::now();
        self.visible_tasks_at(&now)
    }

    /// The positions of the tasks completed strictly between two times, in
    /// the order of the list.
    pub fn completed_between(&self, first: &Time, last: &Time) -> (done: Vec<usize>)
        ensures
            done@ == positions(self@.tasks, completed_in(*first, *last)),
    {
        let mut done: Vec<usize> = Vec::new();
        let mut i: usize = 0;
        while i < self.tasks.len()
            invariant
                i <= self.tasks@.len(),
                done@ == positions_upto(self@.tasks, completed_in(*first, *last), i as int),
            decreases self.tasks@.len() - i,
        {
            let task = &self.tasks[i];
            let within = match &task.completion_time {
                Some(at) => first.is_before(at) && at.is_before(last),
                None => false,
            };
            if task.completed() && within {
                done.push(i);
            }
            i += 1;
        }
        done
    }

    /// Appends a new task made at `now`, with its position as its id.
    pub fn add_task_at(&mut self, now: Time)
        ensures
            final(self)@ == old(self)@.add_task(now),
    {
        let id = self.tasks.len();
        let task = Task::new_at(id, now);
        self.tasks.push(task);
        assert(self@.tasks =~= old(self)@.add_task(now).tasks);
    }

    /// Appends a new task made at the time of the system clock.
    pub fn add_task(&mut self)
        ensures
            exists|now: Time| now.wf() && final(self)@ == old(self)@.add_task(now),
            final(self)@.tasks.len() == old(self)@.tasks.len() + 1,
    {
        self.add_task_at(Time::now());
    }

    /// Removes the task at a position of the list; the tasks after it move
    /// up by one.
    pub fn delete_task(&mut self, position: usize)
        requires
            position < old(self).tasks@.len(),
        ensures
            final(self)@ == old(self)@.delete_task(position as int),
    {
        let _ = self.tasks.remove(position);
        assert(self@.tasks =~= old(self)@.delete_task(position as int).tasks);
    }

    /// Moves a shown task one place up among the tasks shown at `now`.
    ///
    /// `visible_index` counts within the visible projection. The task there
    /// and the shown task before it change places in the list, whatever
    /// lies between them; the first shown task, and an index beyond the
    /// projection, leave the list as it is.
    pub fn swap_with_previous_at(&mut self, visible_index: usize, now: &Time)
        ensures
            final(self)@ == old(self)@.swap_with_previous(visible_index as int, *now),
    {
        if visible_index == 0 {
            return ;
        }
        let shown = self.visible_positions_at(now);
        if visible_index < shown.len() {
            let count = self.tasks.len();
            proof {
                lemma_positions(self@.tasks, shown_by(self.filters, *now), count as int);
            }
            let current = shown[visible_index];
            let previous = shown[visible_index - 1];
            self.tasks.as_mut_slice().swap(current, previous);
            assert(self@.tasks =~= old(self)@.swapped(current as int, previous as int).tasks);
        }
    }

    /// Moves a shown task one place down among the tasks shown at `now`.
    ///
    /// `visible_index` counts within the visible projection. The task there
    /// and the shown task after it change places in the list, whatever lies
    /// between them; the last shown task, and an index beyond the
    /// projection, leave the list as it is.
    pub fn swap_with_next_at(&mut self, visible_index: usize, now: &Time)
        ensures
            final(self)@ == old(self)@.swap_with_next(visible_index as int, *now),
    {
        let shown = self.visible_positions_at(now);
        if visible_index < shown.len() && visible_index + 1 < shown.len() {
            let count = self.tasks.len();
            proof {
                lemma_positions(self@.tasks, shown_by(self.filters, *now), count as int);
            }
            let current = shown[visible_index];
            let next = shown[visible_index + 1];
            self.tasks.as_mut_slice().swap(current, next);
            assert(self@.tasks =~= old(self)@.swapped(current as int, next as int).tasks);
        }
    }

    /// Makes the tasks that are due at `now` under every rule and appends
    /// them to the list.
    pub fn materialize(&mut self, now: &Time)
        ensures
            final(self)@ == old(self)@.materialize(*now),
    {
        let ghost start = self@;
        let mut index: usize = 0;
        while index < self.periodic_tasks.len()
            invariant
                start == old(self)@,
                self.filters == start.filters,
                self.periodic_tasks@.len() == start.rules.len(),
                index <= self.periodic_tasks@.len(),
                forall|i: int|
                    0 <= i < index ==> (#[trigger] self.periodic_tasks@[i])@
                        == start.rules[i].materialized(*now),
                forall|i: int|
                    index <= i < self.periodic_tasks@.len() ==> (
                    #[trigger] self.periodic_tasks@[i])@ == start.rules[i],
                self@.tasks == received(start.tasks, start.rules, *now, index as int),
            decreases self.periodic_tasks@.len() - index,
        {
            let ghost rule = start.rules[index as int];
            let ghost before = self@.tasks;
            let mut created = self.periodic_tasks[index].materialize(now);
            let size = self.tasks.len();
            let id: usize = if size <= usize::MAX - index && size + index < usize::MAX {
                size + index + 1
            } else {
                usize::MAX
            };
            let mut k: usize = 0;
            while k < created.len()
                invariant
                    k <= created@.len(),
                    created@.len() == rule.due(*now),
                    forall|j: int|
                        0 <= j < k ==> (#[trigger] created@[j])@ == (TaskView {
                            id,
                            ..rule.occurrence(j + 1, *now)
                        }),
                    forall|j: int|
                        k <= j < created@.len() ==> (#[trigger] created@[j])@ == rule.occurrence(
                            j + 1,
                            *now,
                        ),
                decreases created@.len() - k,
            {
                created[k].id = id;
                k += 1;
            }
            self.tasks.append(&mut created);
            proof {
                assert(self@.tasks =~= before + emitted_by(
                    rule,
                    *now,
                    list_id(before.len() as int, index as int),
                ));
            }
            index += 1;
        }
        assert(self@.rules =~= start.materialize(*now).rules);
    }

    /// The name of the file that holds the task list called `file_name`. A
    /// name with an extension other than that of task lists is refused as a
    /// failure to write.
    pub fn add_extension_if_missing(file_name: &str) -> (r: Result<String, FileError>)
        ensures
            match list_file_name(file_name@) {
                Some(name) => r matches Ok(text) && text@ == name,
                None => r matches Err(error) && error.kind == FileErrorKind::Write
                    && error.message@ == "Wrong file extension. Expected '.ogz'"@,
            },
    {
        match extension_of(file_name) {
            Some(extension) => {
                if extension == String::from_str("ogz") {
                    Ok(String::from_str(file_name))
                } else {
                    Err(
                        FileError {
                            message: String::from_str("Wrong file extension. Expected '.ogz'"),
                            kind: FileErrorKind::Write,
                        },
                    )
                }
            },
            None => Ok(String::from_str(file_name).concat(".ogz")),
        }
    }

    /// Applies a message that arrived at `now` to the task at a position. A
    /// deletion is not a message to a task.
    pub fn update_task_at(&mut self, position: usize, message: crate::task::Message, now: Time)
        requires
            position < old(self).tasks@.len(),
            !(message is DeleteTask),
        ensures
            final(self)@ == old(self)@.update_task(position as int, message, now),
    {
        self.tasks[position].update_at(message, now);
        assert(self@.tasks =~= old(self)@.update_task(position as int, message, now).tasks);
    }

    /// Appends a new rule without a description, made at `now`.
    pub fn add_rule_at(&mut self, now: &Time)
        ensures
            final(self)@ == old(self)@.add_rule(*now),
    {
        let rule = PeriodicTask::new_at(String::new(), now);
        self.periodic_tasks.push(rule);
        assert(self@.rules =~= old(self)@.add_rule(*now).rules);
    }

    /// Removes the rule at a position; the rules after it move up by one.
    pub fn delete_rule(&mut self, position: usize)
        requires
            position < old(self).periodic_tasks@.len(),
        ensures
            final(self)@ == old(self)@.delete_rule(position as int),
    {
        let _ = self.periodic_tasks.remove(position);
        assert(self@.rules =~= old(self)@.delete_rule(position as int).rules);
    }

    /// Applies a message to the rule at a position. A deletion is not a
    /// message to a rule.
    pub fn update_rule(&mut self, position: usize, message: crate::periodic_task::Message)
        requires
            position < old(self).periodic_tasks@.len(),
            !(message is DeleteTask),
        ensures
            final(self)@ == old(self)@.update_rule(position as int, message),
    {
        self.periodic_tasks[position].update(message);
        assert(self@.rules =~= old(self)@.update_rule(position as int, message).rules);
    }
}

} // verus!
