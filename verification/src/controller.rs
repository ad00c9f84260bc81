//! The event-loop state machine.
//!
//! Button presses arrive on a channel, one at a time, and each is applied to
//! the task list here. Network and hardware work happens outside the library;
//! the caller hands in what the remote store answered and carries out the
//! display and indicator effects these transitions return.

use vstd::prelude::*;
use crate::tasks::{
    rendered_line,
    removed_cursor,
    scroll_left_cursor,
    scroll_right_cursor,
    Task,
    TaskListState,
};

verus! {

/// One discrete button press, in the order the poller emits them.
#[derive(Debug, Clone, Copy, PartialEq, Eq, Structural)]
pub enum ButtonEvent {
    ReloadTasks,
    ScrollRight,
    ScrollLeft,
    TaskDone,
}

/// What came of asking the remote store for the task list.
pub enum ReloadOutcome {
    /// The configuration could not be re-read; nothing was asked of the store.
    ConfigUnavailable,
    /// The store was asked and the call failed.
    FetchFailed,
    /// The store answered with this list.
    Fetched(Vec<Task>),
}

/// The hardware effects a transition asks its caller to carry out: text to
/// put on the display, and a new level for the indicator LED. `None` leaves
/// the display, or the LED, as it is.
#[derive(Debug, PartialEq, Eq)]
pub struct StepEffects {
    pub display: Option<String>,
    pub indicator: Option<bool>,
}

impl TaskListState {
    /// Serves a reload press. A fetched list replaces the whole state, moves
    /// the cursor to the front, renders the first task (or the placeholder)
    /// and turns the indicator on. A failed fetch turns the indicator off and
    /// leaves the shown list untouched; an unreadable configuration changes
    /// nothing at all.
    pub fn apply_reload(&mut self, outcome: ReloadOutcome) -> (fx: StepEffects)
        requires
            old(self).well_formed(),
        ensures
            final(self).well_formed(),
            match outcome {
                ReloadOutcome::ConfigUnavailable => {
                    &&& *final(self) == *old(self)
                    &&& fx.display is None
                    &&& fx.indicator is None
                },
                ReloadOutcome::FetchFailed => {
                    &&& *final(self) == *old(self)
                    &&& fx.display is None
                    &&& fx.indicator == Some(false)
                },
                ReloadOutcome::Fetched(tasks) => {
                    &&& final(self).task_seq() == tasks@
                    &&& final(self).cursor_index() == 0
                    &&& fx.display matches Some(d) && d@ == rendered_line(tasks@, 0)
                    &&& fx.indicator == Some(true)
                },
            },
    {
        match outcome {
            ReloadOutcome::ConfigUnavailable => StepEffects { display: None, indicator: None },
            ReloadOutcome::FetchFailed => StepEffects { display: None, indicator: Some(false) },
            ReloadOutcome::Fetched(tasks) => {
                self.replace_all(tasks);
                let text = self.render_text();
                StepEffects { display: Some(text), indicator: Some(true) }
            },
        }
    }

    /// Serves a scroll-right press: the cursor advances by one, wrapping to
    /// the front, and the task now under it (or the placeholder) is rendered.
    /// No network call is made and the indicator is left alone.
    pub fn apply_scroll_right(&mut self) -> (fx: StepEffects)
        requires
            old(self).well_formed(),
        ensures
            final(self).well_formed(),
            final(self).task_seq() == old(self).task_seq(),
            final(self).cursor_index() == scroll_right_cursor(
                old(self).cursor_index(),
                old(self).task_seq().len() as int,
            ),
            fx.display matches Some(d) && d@ == rendered_line(
                final(self).task_seq(),
                final(self).cursor_index(),
            ),
            fx.indicator is None,
    {
        self.scroll_right();
        let text = self.render_text();
        StepEffects { display: Some(text), indicator: None }
    }

    /// Serves a scroll-left press: the cursor retreats by one, wrapping to
    /// the last index, and the task now under it (or the placeholder) is
    /// rendered. No network call is made and the indicator is left alone.
    pub fn apply_scroll_left(&mut self) -> (fx: StepEffects)
        requires
            old(self).well_formed(),
        ensures
            final(self).well_formed(),
            final(self).task_seq() == old(self).task_seq(),
            final(self).cursor_index() == scroll_left_cursor(
                old(self).cursor_index(),
                old(self).task_seq().len() as int,
            ),
            fx.display matches Some(d) && d@ == rendered_line(
                final(self).task_seq(),
                final(self).cursor_index(),
            ),
            fx.indicator is None,
    {
        self.scroll_left();
        let text = self.render_text();
        StepEffects { display: Some(text), indicator: None }
    }

    /// The identifier the remote store should be asked to delete when a done
    /// press arrives: the task under the cursor, if any.
    pub fn pending_deletion(&self) -> (r: Option<i32>)
        requires
            self.well_formed(),
        ensures
            self.task_seq().len() > 0 ==> r == Some(
                self.task_seq()[self.cursor_index()].user_task_id,
            ),
            self.task_seq().len() == 0 ==> r is None,
    {
        match self.current() {
            Some(task) => Some(task.user_task_id),
            None => None,
        }
    }

    /// Serves a done press after the caller has (when the configuration was
    /// readable) asked the remote store to delete the task under the cursor.
    /// The task is removed locally whether or not that remote call succeeded,
    /// the cursor is stepped back if it would point past the new end, and the
    /// task now under it (or the placeholder) is rendered. An empty list, or
    /// an unreadable configuration, changes nothing at all.
    pub fn apply_task_done(&mut self, config_available: bool) -> (fx: StepEffects)
        requires
            old(self).well_formed(),
        ensures
            final(self).well_formed(),
            old(self).task_seq().len() == 0 || !config_available ==> {
                &&& *final(self) == *old(self)
                &&& fx.display is None
                &&& fx.indicator is None
            },
            old(self).task_seq().len() > 0 && config_available ==> {
                &&& final(self).task_seq() == old(self).task_seq().remove(
                    old(self).cursor_index(),
                )
                &&& final(self).cursor_index() == removed_cursor(
                    old(self).cursor_index(),
                    old(self).task_seq().len() as int,
                )
                &&& fx.display matches Some(d) && d@ == rendered_line(
                    final(self).task_seq(),
                    final(self).cursor_index(),
                )
                &&& fx.indicator is None
            },
    {
        if self.len() == 0 || !config_available {
            StepEffects { display: None, indicator: None }
        } else {
            let _removed = self.remove_current();
            let text = self.render_text();
            StepEffects { display: Some(text), indicator: None }
        }
    }
}

} // verus!
