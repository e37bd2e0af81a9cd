//! The tasks of a product requirements document and their states.

use vstd::prelude::*;

use crate::number::{decimal, law_decimal_injective, successor_text};
use crate::text::{clone_opt_string, clone_strings, lemma_views_push, opt_view, owned, same_text, views};

verus! {

/// Name of the file that holds the tasks.
pub const TASK_FILE_NAME: &'static str = "ralpher.prd.json";

/// Status of a PRD task.
#[derive(Clone, Copy, Debug, PartialEq, Eq, Structural)]
pub enum TaskStatus {
    Todo,
    InProgress,
    Done,
    Blocked,
}

impl Default for TaskStatus {
    fn default() -> (r: Self)
        ensures
            r == TaskStatus::Todo,
    {
        TaskStatus::Todo
    }
}

/// A single PRD task.
#[derive(Debug)]
pub struct Task {
    /// Unique identifier for the task.
    pub id: String,
    /// Human-readable title.
    pub title: String,
    /// Current status.
    pub status: TaskStatus,
    /// Acceptance criteria (optional).
    pub acceptance: Vec<String>,
    /// Task-specific validators (optional override).
    pub validators: Vec<String>,
    /// Freeform notes (optional).
    pub notes: Option<String>,
}

/// What a task says.
#[verifier::ext_equal]
pub struct TaskView {
    pub id: Seq<char>,
    pub title: Seq<char>,
    pub status: TaskStatus,
    pub acceptance: Seq<Seq<char>>,
    pub validators: Seq<Seq<char>>,
    pub notes: Option<Seq<char>>,
}

impl View for Task {
    type V = TaskView;

    open spec fn view(&self) -> TaskView {
        TaskView {
            id: self.id@,
            title: self.title@,
            status: self.status,
            acceptance: views(self.acceptance@),
            validators: views(self.validators@),
            notes: opt_view(self.notes),
        }
    }
}

impl Clone for Task {
    fn clone(&self) -> (r: Self)
        ensures
            r@ == self@,
    {
        Task {
            id: self.id.clone(),
            title: self.title.clone(),
            status: self.status,
            acceptance: clone_strings(&self.acceptance),
            validators: clone_strings(&self.validators),
            notes: clone_opt_string(&self.notes),
        }
    }
}

/// A copy of tasks.
pub fn clone_tasks(v: &Vec<Task>) -> (r: Vec<Task>)
    ensures
        views(r@) == views(v@),
{
    let mut out: Vec<Task> = Vec::new();
    let n = v.len();
    for i in 0..n
        invariant
            n == v@.len(),
            views(out@) == views(v@).take(i as int),
    {
        broadcast use lemma_views_push;

        out.push(v[i].clone());
    }
    out
}

/// A collection of PRD tasks with query methods.
#[derive(Debug)]
pub struct TaskList {
    /// The tasks in this PRD.
    pub tasks: Vec<Task>,
    /// Path the task list was loaded from.
    pub path: Option<String>,
}

/// What a task list holds.
#[verifier::ext_equal]
pub struct TaskListView {
    pub tasks: Seq<TaskView>,
    pub path: Option<Seq<char>>,
}

impl View for TaskList {
    type V = TaskListView;

    open spec fn view(&self) -> TaskListView {
        TaskListView { tasks: views(self.tasks@), path: opt_view(self.path) }
    }
}

impl Clone for TaskList {
    fn clone(&self) -> (r: Self)
        ensures
            r@ == self@,
    {
        TaskList { tasks: clone_tasks(&self.tasks), path: clone_opt_string(&self.path) }
    }
}

impl Default for TaskList {
    fn default() -> (r: Self)
        ensures
            r@ == (TaskListView { tasks: Seq::empty(), path: None }),
    {
        TaskList { tasks: Vec::new(), path: None }
    }
}

// ----------------------------------------------------------------- the queries

/// The first index from `from` on of a task with the given status.
pub open spec fn status_index(ts: Seq<TaskView>, status: TaskStatus, from: int) -> Option<int>
    decreases ts.len() - from,
{
    if from < 0 || from >= ts.len() {
        None
    } else if ts[from].status == status {
        Some(from)
    } else {
        status_index(ts, status, from + 1)
    }
}

/// The index of the task to work on: the first in progress, or else the first
/// to do.
pub open spec fn current_index(ts: Seq<TaskView>) -> Option<int> {
    match status_index(ts, TaskStatus::InProgress, 0) {
        Some(i) => Some(i),
        None => status_index(ts, TaskStatus::Todo, 0),
    }
}

/// The first index from `from` on of a task with the given identifier.
pub open spec fn id_index(ts: Seq<TaskView>, id: Seq<char>, from: int) -> Option<int>
    decreases ts.len() - from,
{
    if from < 0 || from >= ts.len() {
        None
    } else if ts[from].id == id {
        Some(from)
    } else {
        id_index(ts, id, from + 1)
    }
}

/// The identifier with the given number.
pub open spec fn numbered_id(n: nat) -> Seq<char> {
    "task-"@ + decimal(n)
}

/// The largest number, `n` or less, whose identifier no task has.
pub open spec fn free_number(ts: Seq<TaskView>, n: nat) -> nat
    decreases n,
{
    if n == 0 || id_index(ts, numbered_id(n), 0) is None {
        n
    } else {
        free_number(ts, (n - 1) as nat)
    }
}

/// The identifier of a task that is added to the list: the number of tasks
/// gives its number, where that is free.
pub open spec fn new_id(ts: Seq<TaskView>) -> Seq<char> {
    numbered_id(free_number(ts, ts.len() + 1))
}

/// How many tasks have the given status.
pub open spec fn status_count(ts: Seq<TaskView>, status: TaskStatus) -> nat
    decreases ts.len(),
{
    if ts.len() == 0 {
        0
    } else {
        status_count(ts.drop_last(), status) + if ts.last().status == status {
            1nat
        } else {
            0nat
        }
    }
}

/// Whether every task is done.
pub open spec fn all_done(ts: Seq<TaskView>) -> bool {
    forall|i: int| 0 <= i < ts.len() ==> (#[trigger] ts[i]).status == TaskStatus::Done
}

pub proof fn lemma_status_index(ts: Seq<TaskView>, status: TaskStatus, from: int)
    requires
        0 <= from,
    ensures
        match status_index(ts, status, from) {
            Some(i) => from <= i < ts.len() && ts[i].status == status && forall|k: int|
                from <= k < i ==> (#[trigger] ts[k]).status != status,
            None => forall|k: int| from <= k < ts.len() ==> (#[trigger] ts[k]).status != status,
        },
    decreases ts.len() - from,
{
    if from < ts.len() && ts[from].status != status {
        lemma_status_index(ts, status, from + 1);
    }
}

pub proof fn lemma_id_index(ts: Seq<TaskView>, id: Seq<char>, from: int)
    requires
        0 <= from,
    ensures
        match id_index(ts, id, from) {
            Some(i) => from <= i < ts.len() && ts[i].id == id && forall|k: int|
                from <= k < i ==> (#[trigger] ts[k]).id != id,
            None => forall|k: int| from <= k < ts.len() ==> (#[trigger] ts[k]).id != id,
        },
    decreases ts.len() - from,
{
    if from < ts.len() && ts[from].id != id {
        lemma_id_index(ts, id, from + 1);
    }
}

pub proof fn lemma_status_count_bound(ts: Seq<TaskView>, status: TaskStatus)
    ensures
        status_count(ts, status) <= ts.len(),
    decreases ts.len(),
{
    if ts.len() > 0 {
        lemma_status_count_bound(ts.drop_last(), status);
    }
}

// ------------------------------------------------------------------------ laws

/// Every task has one of the four states, so their counts add up to the number
/// of tasks.
pub proof fn law_counts_add_up(ts: Seq<TaskView>)
    ensures
        status_count(ts, TaskStatus::Todo) + status_count(ts, TaskStatus::InProgress)
            + status_count(ts, TaskStatus::Done) + status_count(ts, TaskStatus::Blocked)
            == ts.len(),
    decreases ts.len(),
{
    if ts.len() > 0 {
        law_counts_add_up(ts.drop_last());
    }
}

/// A list is complete exactly where as many tasks are done as there are.
pub proof fn law_complete_iff_all_counted(ts: Seq<TaskView>)
    ensures
        all_done(ts) <==> status_count(ts, TaskStatus::Done) == ts.len(),
    decreases ts.len(),
{
    if ts.len() > 0 {
        let front = ts.drop_last();
        law_complete_iff_all_counted(front);
        lemma_status_count_bound(front, TaskStatus::Done);
        if all_done(ts) {
            assert forall|i: int| 0 <= i < front.len() implies (#[trigger] front[i]).status
                == TaskStatus::Done by {
                assert(front[i] == ts[i]);
            }
            assert(ts.last() == ts[ts.len() - 1]);
        }
        if status_count(ts, TaskStatus::Done) == ts.len() {
            assert forall|i: int| 0 <= i < ts.len() implies (#[trigger] ts[i]).status
                == TaskStatus::Done by {
                if i < front.len() {
                    assert(front[i] == ts[i]);
                }
            }
        }
    }
}

/// The identifier of a new task is none that a task has.
pub proof fn law_new_id_is_free(ts: Seq<TaskView>)
    ensures
        forall|i: int| 0 <= i < ts.len() ==> (#[trigger] ts[i]).id != new_id(ts),
{
    lemma_some_number_free(ts, ts.len() + 1);
    lemma_free_number(ts, ts.len() + 1);
    lemma_id_index(ts, new_id(ts), 0);
}

/// More numbers than tasks cannot all be taken.
proof fn lemma_some_number_free(ts: Seq<TaskView>, n: nat)
    requires
        ts.len() < n,
    ensures
        exists|m: nat| 1 <= m <= n && id_index(ts, #[trigger] numbered_id(m), 0) is None,
    decreases n,
{
    match id_index(ts, numbered_id(n), 0) {
        None => {},
        Some(i) => {
            lemma_id_index(ts, numbered_id(n), 0);
            let rest = ts.remove(i);
            lemma_some_number_free(rest, (n - 1) as nat);
            let m = choose|m: nat|
                1 <= m <= n - 1 && id_index(rest, #[trigger] numbered_id(m), 0) is None;
            lemma_id_index(rest, numbered_id(m), 0);
            lemma_id_index(ts, numbered_id(m), 0);
            match id_index(ts, numbered_id(m), 0) {
                Some(k) => {
                    if k == i {
                        assert(numbered_id(m).skip(5) =~= decimal(m)) by {
                            reveal_strlit("task-");
                        }
                        assert(numbered_id(n).skip(5) =~= decimal(n)) by {
                            reveal_strlit("task-");
                        }
                        law_decimal_injective(m, n);
                    } else if k < i {
                        assert(rest[k] == ts[k]);
                    } else {
                        assert(rest[k - 1] == ts[k]);
                    }
                },
                None => {},
            }
        },
    }
}

proof fn lemma_free_number(ts: Seq<TaskView>, n: nat)
    requires
        exists|m: nat| 1 <= m <= n && id_index(ts, #[trigger] numbered_id(m), 0) is None,
    ensures
        free_number(ts, n) > 0,
        id_index(ts, numbered_id(free_number(ts, n)), 0) is None,
    decreases n,
{
    if id_index(ts, numbered_id(n), 0) is Some {
        lemma_free_number(ts, (n - 1) as nat);
    }
}

/// There is a task to work on unless every task is done or blocked.
pub proof fn law_current_task_exists(ts: Seq<TaskView>)
    ensures
        current_index(ts) is None <==> forall|i: int|
            0 <= i < ts.len() ==> (#[trigger] ts[i]).status == TaskStatus::Done || ts[i].status
                == TaskStatus::Blocked,
{
    lemma_status_index(ts, TaskStatus::InProgress, 0);
    lemma_status_index(ts, TaskStatus::Todo, 0);
}

/// A complete list has no task left to work on.
pub proof fn law_complete_has_no_current(ts: Seq<TaskView>)
    requires
        all_done(ts),
    ensures
        current_index(ts) is None,
{
    law_current_task_exists(ts);
}

/// The task to work on is open, and one that is to do is chosen only where none
/// is in progress.
pub proof fn law_current_task_is_open(ts: Seq<TaskView>)
    ensures
        match current_index(ts) {
            Some(i) => 0 <= i < ts.len() && (ts[i].status == TaskStatus::InProgress
                || ts[i].status == TaskStatus::Todo && forall|k: int|
                0 <= k < ts.len() ==> (#[trigger] ts[k]).status != TaskStatus::InProgress),
            None => true,
        },
{
    lemma_status_index(ts, TaskStatus::InProgress, 0);
    lemma_status_index(ts, TaskStatus::Todo, 0);
}

// ------------------------------------------------------------------- execution

/// Why a task list could not be saved.
#[derive(Clone, Copy, Debug, PartialEq, Eq, Structural)]
pub enum TaskFileError {
    /// It was not loaded from a file.
    NoPath,
}

impl TaskFileError {
    /// The message of the error.
    pub fn message(&self) -> (r: &'static str)
        ensures
            r@ == "TaskList has no associated path"@,
    {
        "TaskList has no associated path"
    }
}

/// The message for a directory without a task file.
pub fn missing_tasks_message(dir: &str) -> (r: String)
    ensures
        r@ == "No ralpher.prd.json found in "@ + dir@
            + ". Create a PRD task file to track progress."@,
{
    owned("No ralpher.prd.json found in ").concat(dir).concat(
        ". Create a PRD task file to track progress.",
    )
}

fn find_id(tasks: &Vec<Task>, id: &str) -> (r: Option<usize>)
    ensures
        match r {
            Some(i) => i < tasks@.len() && id_index(views(tasks@), id@, 0) == Some(i as int),
            None => id_index(views(tasks@), id@, 0) is None,
        },
{
    let n = tasks.len();
    let mut i: usize = 0;
    while i < n
        invariant
            n == tasks@.len(),
            i <= n,
            id_index(views(tasks@), id@, 0) == id_index(views(tasks@), id@, i as int),
        decreases n - i,
    {
        assert(views(tasks@)[i as int] == tasks@[i as int]@);
        if same_text(tasks[i].id.as_str(), id) {
            return Some(i);
        }
        i += 1;
    }
    None
}

/// An identifier that none of the tasks has.
pub fn find_free_id(tasks: &Vec<Task>) -> (r: String)
    ensures
        r@ == new_id(views(tasks@)),
        forall|i: int| 0 <= i < tasks@.len() ==> (#[trigger] views(tasks@)[i]).id != r@,
{
    let ghost ts = views(tasks@);
    proof {
        law_new_id_is_free(ts);
        lemma_some_number_free(ts, ts.len() + 1);
        lemma_free_number(ts, ts.len() + 1);
    }
    let mut k: usize = tasks.len();
    loop
        invariant
            ts == views(tasks@),
            free_number(ts, ts.len() + 1) == free_number(ts, (k + 1) as nat),
            free_number(ts, ts.len() + 1) > 0,
            forall|i: int| 0 <= i < ts.len() ==> (#[trigger] ts[i]).id != new_id(ts),
        decreases k,
    {
        let id = owned("task-").concat(successor_text(k).as_str());
        assert(id@ == numbered_id((k + 1) as nat));
        assert(free_number(ts, 0) == 0);
        assert((k + 1 - 1) as nat == k as nat);
        match find_id(tasks, id.as_str()) {
            None => {
                return id;
            },
            Some(_) => {
                k -= 1;
            },
        }
    }
}

impl TaskList {
    /// Create a new task list from a vector of tasks.
    pub fn new(tasks: Vec<Task>) -> (r: Self)
        ensures
            r.tasks == tasks,
            r.path is None,
    {
        TaskList { tasks, path: None }
    }

    /// The path to which the task list is saved: the one it was loaded from.
    pub fn save(&self) -> (r: Result<&str, TaskFileError>)
        ensures
            match r {
                Ok(path) => opt_view(self.path) == Some(path@),
                Err(e) => self.path is None && e == TaskFileError::NoPath,
            },
    {
        match &self.path {
            Some(path) => Ok(path.as_str()),
            None => Err(TaskFileError::NoPath),
        }
    }

    fn index_with_status(&self, status: TaskStatus) -> (r: Option<usize>)
        ensures
            match r {
                Some(i) => i < self.tasks@.len() && status_index(self@.tasks, status, 0) == Some(
                    i as int,
                ),
                None => status_index(self@.tasks, status, 0) is None,
            },
    {
        let n = self.tasks.len();
        let mut i: usize = 0;
        while i < n
            invariant
                n == self.tasks@.len(),
                i <= n,
                status_index(self@.tasks, status, 0) == status_index(
                    self@.tasks,
                    status,
                    i as int,
                ),
            decreases n - i,
        {
            assert(self@.tasks[i as int] == self.tasks@[i as int]@);
            if self.tasks[i].status == status {
                return Some(i);
            }
            i += 1;
        }
        None
    }

    /// Index of the task that `current_task` gives.
    pub fn current_task_index(&self) -> (r: Option<usize>)
        ensures
            match r {
                Some(i) => i < self.tasks@.len() && current_index(self@.tasks) == Some(i as int),
                None => current_index(self@.tasks) is None,
            },
    {
        match self.index_with_status(TaskStatus::InProgress) {
            Some(i) => Some(i),
            None => self.index_with_status(TaskStatus::Todo),
        }
    }

    /// Find the current task to work on.
    /// Returns the first task that is InProgress, or the first Todo task.
    pub fn current_task(&self) -> (r: Option<&Task>)
        ensures
            match r {
                Some(t) => current_index(self@.tasks) is Some && *t
                    == self.tasks@[current_index(self@.tasks)->0],
                None => current_index(self@.tasks) is None,
            },
    {
        match self.current_task_index() {
            Some(i) => Some(&self.tasks[i]),
            None => None,
        }
    }

    /// Index of the first task with the given identifier.
    pub fn index_of(&self, id: &str) -> (r: Option<usize>)
        ensures
            match r {
                Some(i) => i < self.tasks@.len() && id_index(self@.tasks, id@, 0) == Some(i as int),
                None => id_index(self@.tasks, id@, 0) is None,
            },
    {
        find_id(&self.tasks, id)
    }

    /// An identifier for a task that is added: one that no task has.
    pub fn free_id(&self) -> (r: String)
        ensures
            r@ == new_id(self@.tasks),
            forall|i: int| 0 <= i < self@.tasks.len() ==> (#[trigger] self@.tasks[i]).id != r@,
    {
        find_free_id(&self.tasks)
    }

    /// Get a mutable reference to a task by ID.
    pub fn get_mut(&mut self, id: &str) -> (r: Option<&mut Task>)
        ensures
            match r {
                Some(t) => {
                    &&& id_index(old(self)@.tasks, id@, 0) is Some
                    &&& *t == old(self).tasks@[id_index(old(self)@.tasks, id@, 0)->0]
                    &&& final(self).tasks@ == old(self).tasks@.update(
                        id_index(old(self)@.tasks, id@, 0)->0,
                        *final(t),
                    )
                    &&& final(self).path == old(self).path
                },
                None => id_index(old(self)@.tasks, id@, 0) is None && *final(self) == *old(self),
            },
    {
        match self.index_of(id) {
            Some(i) => Some(&mut self.tasks[i]),
            None => None,
        }
    }

    /// Check if all tasks are complete.
    pub fn is_complete(&self) -> (r: bool)
        ensures
            r == all_done(self@.tasks),
    {
        let n = self.tasks.len();
        for i in 0..n
            invariant
                n == self.tasks@.len(),
                forall|k: int|
                    0 <= k < i ==> (#[trigger] self@.tasks[k]).status == TaskStatus::Done,
        {
            assert(self@.tasks[i as int] == self.tasks@[i as int]@);
            if self.tasks[i].status != TaskStatus::Done {
                return false;
            }
        }
        true
    }

    /// Count tasks by status.
    pub fn count_by_status(&self, status: TaskStatus) -> (r: usize)
        ensures
            r == status_count(self@.tasks, status),
    {
        let n = self.tasks.len();
        let mut count: usize = 0;
        let ghost ts = self@.tasks;
        for i in 0..n
            invariant
                n == self.tasks@.len(),
                ts == self@.tasks,
                count == status_count(ts.take(i as int), status),
                count <= i,
        {
            assert(ts.take(i + 1).drop_last() =~= ts.take(i as int));
            assert(ts[i as int] == self.tasks@[i as int]@);
            if self.tasks[i].status == status {
                count += 1;
            }
        }
        assert(ts.take(n as int) =~= ts);
        count
    }
}

// ------------------------------------------------------- what the queries find

/// The task to work on is the first that is in progress, or, where none is, the
/// first that is to do.
pub proof fn law_first_open_task_is_current(ts: Seq<TaskView>, i: int)
    requires
        0 <= i < ts.len(),
        ts[i].status == TaskStatus::InProgress || (ts[i].status == TaskStatus::Todo && forall|
            k: int,
        |
            0 <= k < ts.len() ==> (#[trigger] ts[k]).status != TaskStatus::InProgress),
        forall|k: int| 0 <= k < i ==> (#[trigger] ts[k]).status != ts[i].status,
    ensures
        current_index(ts) == Some(i),
{
    lemma_status_index(ts, TaskStatus::InProgress, 0);
    lemma_status_index(ts, TaskStatus::Todo, 0);
}

/// A task is found by its identifier, at the first place that has it.
pub proof fn law_task_is_found_by_id(ts: Seq<TaskView>, id: Seq<char>, i: int)
    requires
        0 <= i < ts.len(),
        ts[i].id == id,
        forall|k: int| 0 <= k < i ==> (#[trigger] ts[k]).id != id,
    ensures
        id_index(ts, id, 0) == Some(i),
{
    lemma_id_index(ts, id, 0);
}

/// One more task counts for its status and for no other.
pub proof fn law_tasks_are_counted(ts: Seq<TaskView>, t: TaskView, status: TaskStatus)
    ensures
        t.status == status ==> status_count(ts.push(t), status) == status_count(ts, status) + 1,
        t.status != status ==> status_count(ts.push(t), status) == status_count(ts, status),
        status_count(Seq::empty(), status) == 0,
{
    assert(ts.push(t).drop_last() =~= ts);
}

/// Where the number that follows the number of tasks is free, a new task gets it.
pub proof fn law_new_task_is_numbered(ts: Seq<TaskView>)
    requires
        forall|i: int|
            0 <= i < ts.len() ==> (#[trigger] ts[i]).id != "task-"@ + decimal(ts.len() + 1),
    ensures
        new_id(ts) == "task-"@ + decimal(ts.len() + 1),
{
    lemma_id_index(ts, numbered_id(ts.len() + 1), 0);
}

} // verus!
