use taskpanel::controller::ReloadOutcome;
use taskpanel::tasks::{Task, TaskListState};

fn task(id: i32, label: &str) -> Task {
    Task { user_task_id: id, task: String::from(label) }
}

fn three_task_state() -> TaskListState {
    let mut state = TaskListState::new();
    let fx = state.apply_reload(ReloadOutcome::Fetched(vec![
        task(1, "A"),
        task(2, "B"),
        task(3, "C"),
    ]));
    assert_eq!(fx.display, Some(String::from("A")));
    assert_eq!(fx.indicator, Some(true));
    state
}

#[test]
fn reload_with_tasks_shows_first_and_turns_indicator_on() {
    let mut state = three_task_state();
    assert_eq!(state.len(), 3);
    assert_eq!(state.current().unwrap().user_task_id, 1);
    assert_eq!(state.render_text(), "A");
    let fx = state.apply_scroll_right();
    assert_eq!(fx.display, Some(String::from("B")));
    let fx = state.apply_scroll_right();
    assert_eq!(fx.display, Some(String::from("C")));
    let fx = state.apply_scroll_right();
    assert_eq!(fx.display, Some(String::from("A")));
}

#[test]
fn reload_with_empty_list_shows_placeholder_and_turns_indicator_on() {
    let mut state = TaskListState::new();
    let fx = state.apply_reload(ReloadOutcome::Fetched(Vec::new()));
    assert_eq!(fx.display, Some(String::from("No tasks")));
    assert_eq!(fx.indicator, Some(true));
    assert_eq!(state.len(), 0);
}

#[test]
fn failed_reload_turns_indicator_off_and_keeps_shown_tasks() {
    let mut state = three_task_state();
    let before = state.render_text();
    let fx = state.apply_reload(ReloadOutcome::FetchFailed);
    assert_eq!(fx.display, None);
    assert_eq!(fx.indicator, Some(false));
    assert_eq!(state.render_text(), before);
    assert_eq!(state.len(), 3);
}

#[test]
fn reload_without_configuration_changes_nothing() {
    let mut state = three_task_state();
    let fx = state.apply_reload(ReloadOutcome::ConfigUnavailable);
    assert_eq!(fx.display, None);
    assert_eq!(fx.indicator, None);
    assert_eq!(state.render_text(), "A");
    assert_eq!(state.len(), 3);
}

#[test]
fn scroll_right_full_cycle_returns_to_start() {
    let mut state = three_task_state();
    let start = state.current().unwrap().user_task_id;
    for _ in 0..3 {
        state.apply_scroll_right();
    }
    assert_eq!(state.current().unwrap().user_task_id, start);
}

#[test]
fn scroll_left_from_front_wraps_to_last() {
    let mut state = three_task_state();
    let fx = state.apply_scroll_left();
    assert_eq!(fx.display, Some(String::from("C")));
    assert_eq!(state.current().unwrap().user_task_id, 3);
}

#[test]
fn scroll_on_empty_list_keeps_placeholder() {
    let mut state = TaskListState::new();
    let fx = state.apply_scroll_right();
    assert_eq!(fx.display, Some(String::from("No tasks")));
    let fx = state.apply_scroll_left();
    assert_eq!(fx.display, Some(String::from("No tasks")));
}

#[test]
fn done_on_middle_task_removes_it_and_keeps_cursor_index() {
    let mut state = three_task_state();
    state.apply_scroll_right();
    assert_eq!(state.current().unwrap().user_task_id, 2);
    assert_eq!(state.pending_deletion(), Some(2));
    let fx = state.apply_task_done(true);
    assert_eq!(state.len(), 2);
    assert_eq!(state.current().unwrap().user_task_id, 3);
    assert_eq!(fx.display, Some(String::from("C")));
    assert_eq!(fx.indicator, None);
}

#[test]
fn done_on_last_task_steps_cursor_back() {
    let mut state = three_task_state();
    state.apply_scroll_left();
    assert_eq!(state.current().unwrap().user_task_id, 3);
    let fx = state.apply_task_done(true);
    assert_eq!(state.len(), 2);
    assert_eq!(state.current().unwrap().user_task_id, 2);
    assert_eq!(fx.display, Some(String::from("B")));
}

#[test]
fn done_on_only_task_empties_list_and_shows_placeholder() {
    let mut state = TaskListState::new();
    state.apply_reload(ReloadOutcome::Fetched(vec![task(7, "only")]));
    let fx = state.apply_task_done(true);
    assert_eq!(state.len(), 0);
    assert_eq!(fx.display, Some(String::from("No tasks")));
    assert_eq!(state.pending_deletion(), None);
}

#[test]
fn done_on_empty_list_changes_nothing() {
    let mut state = TaskListState::new();
    let fx = state.apply_task_done(true);
    assert_eq!(fx.display, None);
    assert_eq!(fx.indicator, None);
    assert_eq!(state.len(), 0);
}

#[test]
fn done_without_configuration_changes_nothing() {
    let mut state = three_task_state();
    let fx = state.apply_task_done(false);
    assert_eq!(fx.display, None);
    assert_eq!(fx.indicator, None);
    assert_eq!(state.len(), 3);
    assert_eq!(state.current().unwrap().user_task_id, 1);
}
