//! The ordered task list and its cursor.
//!
//! The list mirrors the server-provided order and the cursor names the task
//! currently shown on the display. The invariant is that the cursor always
//! stays inside a non-empty list and is pinned to zero when the list is empty.

use vstd::prelude::*;
use vstd::string::*;

verus! {

/// One task as the remote store hands it out: a stable identifier and a
/// free-form label. Replaced wholesale on every reload.
#[derive(Debug, Clone, PartialEq, Eq)]
pub struct Task {
    pub user_task_id: i32,
    pub task: String,
}

/// Where the cursor lands after one step to the right: forward by one,
/// wrapping to the front past the last index.
pub open spec fn scroll_right_cursor(cursor: int, len: int) -> int {
    if len <= 0 {
        0
    } else if cursor + 1 >= len {
        0
    } else {
        cursor + 1
    }
}

/// Where the cursor lands after one step to the left: back by one, wrapping
/// to the last index from the front.
pub open spec fn scroll_left_cursor(cursor: int, len: int) -> int {
    if len <= 0 {
        0
    } else if cursor == 0 {
        len - 1
    } else {
        cursor - 1
    }
}

/// Where the cursor lands after the entry under it is removed from a list of
/// `old_len` entries: unchanged, unless it would point past the new end, in
/// which case it steps back (never below zero).
pub open spec fn removed_cursor(cursor: int, old_len: int) -> int {
    if cursor >= old_len - 1 && cursor != 0 {
        cursor - 1
    } else {
        cursor
    }
}

/// The cursor after `n` right-steps in a row over a list of length `len`.
pub open spec fn iterate_scroll_right(cursor: int, len: int, n: nat) -> int
    decreases n,
{
    if n == 0 {
        cursor
    } else {
        scroll_right_cursor(iterate_scroll_right(cursor, len, (n - 1) as nat), len)
    }
}

/// The text the display carries for a given list and cursor: the label under
/// the cursor, or the fixed placeholder when the list is empty.
pub open spec fn rendered_line(tasks: Seq<Task>, cursor: int) -> Seq<char> {
    if tasks.len() > 0 {
        tasks[cursor].task@
    } else {
        "No tasks"@
    }
}

/// The fixed placeholder shown when the list is empty.
pub fn no_tasks_text() -> (r: &'static str)
    ensures
        r@ == "No tasks"@,
{
    "No tasks"
}

/// The ordered task list plus the cursor of the task being shown.
pub struct TaskListState {
    tasks: Vec<Task>,
    cursor: usize,
}

impl TaskListState {
    /// The tasks, in server order.
    pub closed spec fn task_seq(&self) -> Seq<Task> {
        self.tasks@
    }

    /// The index of the task being shown.
    pub closed spec fn cursor_index(&self) -> int {
        self.cursor as int
    }

    /// The cursor is inside the list whenever the list is non-empty, and
    /// pinned to zero when it is empty.
    pub open spec fn well_formed(&self) -> bool {
        &&& self.task_seq().len() == 0 ==> self.cursor_index() == 0
        &&& self.task_seq().len() > 0 ==> 0 <= self.cursor_index() < self.task_seq().len()
    }

    /// The empty list, cursor at zero.
    pub fn new() -> (r: TaskListState)
        ensures
            r.well_formed(),
            r.task_seq() == Seq::<Task>::empty(),
            r.cursor_index() == 0,
    {
        let r = TaskListState { tasks: Vec::new(), cursor: 0 };
        proof {
            assert(r.task_seq() =~= Seq::<Task>::empty());
        }
        r
    }

    /// How many tasks are held.
    pub fn len(&self) -> (r: usize)
        ensures
            r == self.task_seq().len(),
    {
        self.tasks.len()
    }

    /// The task under the cursor, if any.
    pub fn current(&self) -> (r: Option<&Task>)
        requires
            self.well_formed(),
        ensures
            self.task_seq().len() > 0 ==> (r matches Some(t) && *t
                == self.task_seq()[self.cursor_index()]),
            self.task_seq().len() == 0 ==> r is None,
    {
        if self.tasks.len() > 0 {
            Some(&self.tasks[self.cursor])
        } else {
            None
        }
    }

    /// The text the display carries for the current state.
    pub fn render_text(&self) -> (r: String)
        requires
            self.well_formed(),
        ensures
            r@ == rendered_line(self.task_seq(), self.cursor_index()),
    {
        if self.tasks.len() > 0 {
            self.tasks[self.cursor].task.clone()
        } else {
            String::from_str(no_tasks_text())
        }
    }

    /// Replaces the whole list and resets the cursor to the front.
    pub fn replace_all(&mut self, tasks: Vec<Task>)
        ensures
            final(self).well_formed(),
            final(self).task_seq() == tasks@,
            final(self).cursor_index() == 0,
    {
        self.tasks = tasks;
        self.cursor = 0;
    }

    /// Advances the cursor by one, wrapping to the front past the last index.
    pub fn scroll_right(&mut self)
        requires
            old(self).well_formed(),
        ensures
            final(self).well_formed(),
            final(self).task_seq() == old(self).task_seq(),
            final(self).cursor_index() == scroll_right_cursor(
                old(self).cursor_index(),
                old(self).task_seq().len() as int,
            ),
    {
        let n = self.tasks.len();
        if self.cursor + 1 >= n {
            self.cursor = 0;
        } else {
            self.cursor = self.cursor + 1;
        }
    }

    /// Retreats the cursor by one, wrapping to the last index from the front.
    /// From index zero of a non-empty list it lands on the last index.
    pub fn scroll_left(&mut self)
        requires
            old(self).well_formed(),
        ensures
            final(self).well_formed(),
            final(self).task_seq() == old(self).task_seq(),
            final(self).cursor_index() == scroll_left_cursor(
                old(self).cursor_index(),
                old(self).task_seq().len() as int,
            ),
            old(self).cursor_index() == 0 && old(self).task_seq().len() > 0
                ==> final(self).cursor_index() == old(self).task_seq().len() - 1,
    {
        if self.cursor == 0 {
            self.cursor = self.tasks.len();
            if self.cursor != 0 {
                self.cursor = self.cursor - 1;
            }
        } else {
            self.cursor = self.cursor - 1;
        }
    }

    /// Removes the task under the cursor and steps the cursor back if it
    /// would otherwise point past the new end. Removing the last entry of the
    /// list moves the cursor to the new last entry (or to zero when the list
    /// becomes empty).
    pub fn remove_current(&mut self) -> (removed: Task)
        requires
            old(self).well_formed(),
            old(self).task_seq().len() > 0,
        ensures
            final(self).well_formed(),
            removed == old(self).task_seq()[old(self).cursor_index()],
            final(self).task_seq() == old(self).task_seq().remove(old(self).cursor_index()),
            final(self).cursor_index() == removed_cursor(
                old(self).cursor_index(),
                old(self).task_seq().len() as int,
            ),
            old(self).cursor_index() == old(self).task_seq().len() - 1
                ==> final(self).cursor_index() == (if old(self).task_seq().len() >= 2 {
                old(self).task_seq().len() - 2
            } else {
                0int
            }),
    {
        let removed = self.tasks.remove(self.cursor);
        if self.cursor >= self.tasks.len() && self.cursor != 0 {
            self.cursor = self.cursor - 1;
        }
        removed
    }
}

/// After `n` right-steps from a cursor inside a list of length `len`, the
/// cursor sits at `cursor + n`, reduced by `len` once it passes the end.
proof fn lemma_iterate_scroll_right_shape(cursor: int, len: int, n: nat)
    requires
        0 <= cursor < len,
        n <= len,
    ensures
        iterate_scroll_right(cursor, len, n) == (if cursor + n < len {
            cursor + n
        } else {
            cursor + n - len
        }),
    decreases n,
{
    if n > 0 {
        lemma_iterate_scroll_right_shape(cursor, len, (n - 1) as nat);
    }
}

/// Law: over a non-empty list of length `len`, `len` right-steps in a row
/// bring the cursor back to where it started.
pub proof fn lemma_scroll_right_full_cycle(cursor: int, len: int)
    requires
        0 <= cursor < len,
    ensures
        iterate_scroll_right(cursor, len, len as nat) == cursor,
{
    lemma_iterate_scroll_right_shape(cursor, len, len as nat);
}

} // verus!
