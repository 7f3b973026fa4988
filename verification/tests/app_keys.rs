use cour::index::query::ThreadListRow;
use cour::ui::app::{handle_key, App, AppEffect, FocusMode};
use cour::ui::keys::KeyCode;
use cour::ui::workspace::Workspace;

fn test_app() -> App {
    App::new("/nonexistent-test.db".to_string())
}

fn row(id: i64, subject: &str, state: &str, count: i64) -> ThreadListRow {
    ThreadListRow {
        id,
        subject: Some(subject.to_string()),
        state: Some(state.to_string()),
        message_count: count,
        latest_message_at: None,
    }
}

#[test]
fn search_escape_restores_global_workspace_switching() {
    let mut app = test_app();
    app.workspace = Workspace::Search;
    app.search_state.query = "hel".to_string();
    app.enter_search_edit_mode();

    handle_key(&mut app, KeyCode::Esc, false);
    assert_eq!(app.workspace, Workspace::Search);
    assert!(!app.search_state.editing);
    assert_eq!(app.focus_mode, FocusMode::Navigation);

    handle_key(&mut app, KeyCode::Char('a'), false);
    assert_eq!(app.workspace, Workspace::Actions);
    assert_eq!(app.search_state.query, "hel");
}

#[test]
fn enter_from_inbox_opens_thread_workspace() {
    let mut app = test_app();
    app.workspace = Workspace::Inbox;
    app.inbox_state.threads = vec![row(7, "Quarterly planning", "waiting_on_me", 2)];
    app.inbox_state.selected = 0;

    let thread_id = app.inbox_state.selected_thread_id().unwrap();
    let mut effects = Vec::new();
    app.open_thread(thread_id, true, &mut effects);

    assert_eq!(app.workspace, Workspace::Thread);
    assert_eq!(app.previous_workspace, Workspace::Inbox);
    assert_eq!(app.thread_state.thread_id, Some(7));
    assert_eq!(effects, vec![AppEffect::LoadThread(7)]);
}

#[test]
fn thread_escape_returns_to_inbox_workspace() {
    let mut app = test_app();
    app.workspace = Workspace::Inbox;
    app.inbox_state.threads = vec![row(9, "Follow up", "waiting_on_them", 1)];
    app.inbox_state.selected = 0;

    app.previous_workspace = Workspace::Inbox;
    app.workspace = Workspace::Thread;

    let effects = handle_key(&mut app, KeyCode::Esc, true);
    assert_eq!(app.workspace, Workspace::Inbox);
    assert_eq!(app.inbox_state.selected, 0);
    assert_eq!(effects, vec![AppEffect::RefreshInbox]);
}

#[test]
fn enter_on_inbox_row_opens_it_and_escape_goes_back() {
    let mut app = test_app();
    handle_key(&mut app, KeyCode::Char('i'), false);
    assert_eq!(app.workspace, Workspace::Inbox);
    app.show_inbox(vec![row(3, "A", "waiting_on_me", 1), row(4, "B", "low_value", 5)]);
    handle_key(&mut app, KeyCode::Char('j'), false);
    handle_key(&mut app, KeyCode::Down, false);
    assert_eq!(app.inbox_state.selected, 1);
    let effects = handle_key(&mut app, KeyCode::Enter, true);
    assert_eq!(effects, vec![AppEffect::LoadThread(4)]);
    assert_eq!(app.workspace, Workspace::Thread);
    handle_key(&mut app, KeyCode::Esc, false);
    assert_eq!(app.workspace, Workspace::Inbox);
}

#[test]
fn palette_runs_selected_command() {
    let mut app = test_app();
    handle_key(&mut app, KeyCode::Char(':'), false);
    assert!(app.command_palette_state.open);
    for c in "drafts".chars() {
        handle_key(&mut app, KeyCode::Char(c), false);
    }
    let effects = handle_key(&mut app, KeyCode::Enter, true);
    assert!(!app.command_palette_state.open);
    assert_eq!(app.workspace, Workspace::Drafts);
    assert_eq!(effects, vec![AppEffect::RefreshDrafts]);
}

#[test]
fn help_and_refresh_messages() {
    let mut app = test_app();
    handle_key(&mut app, KeyCode::Char('?'), false);
    assert_eq!(
        app.status_message.as_deref(),
        Some("Brief · b/i/s/a/d switch  q quit  : commands  ? help")
    );
    let mut effects = Vec::new();
    app.refresh_current_workspace(true, &mut effects);
    assert_eq!(app.status_message.as_deref(), Some("Nothing to refresh in this workspace yet"));
    assert!(effects.is_empty());
    handle_key(&mut app, KeyCode::Char('q'), false);
    assert!(!app.running);
}

#[test]
fn search_without_query_starts_typing() {
    let mut app = test_app();
    handle_key(&mut app, KeyCode::Char('s'), true);
    assert_eq!(app.focus_mode, FocusMode::EditingSearch);
    for c in "hi".chars() {
        handle_key(&mut app, KeyCode::Char(c), true);
    }
    handle_key(&mut app, KeyCode::Backspace, true);
    assert_eq!(app.search_state.query, "h");
    let effects = handle_key(&mut app, KeyCode::Enter, true);
    assert_eq!(effects, vec![AppEffect::ExecuteSearch]);
    assert_eq!(app.focus_mode, FocusMode::Navigation);
    app.show_search_results(vec![11, 12]);
    handle_key(&mut app, KeyCode::Down, true);
    let effects = handle_key(&mut app, KeyCode::Enter, true);
    assert_eq!(effects, vec![AppEffect::LoadThread(12)]);
}

#[test]
fn actions_sections_cycle_and_rows_clamp() {
    let mut app = test_app();
    handle_key(&mut app, KeyCode::Char('a'), false);
    app.show_actions(vec![row(1, "x", "waiting_on_me", 1), row(2, "y", "waiting_on_me", 1)], vec![], 3);
    handle_key(&mut app, KeyCode::Down, false);
    handle_key(&mut app, KeyCode::Down, false);
    assert_eq!(app.actions_state.selected_row, 1);
    handle_key(&mut app, KeyCode::Tab, false);
    assert_eq!(app.actions_state.selected_section, 1);
    assert_eq!(app.actions_state.selected_row, 0);
    handle_key(&mut app, KeyCode::Tab, false);
    handle_key(&mut app, KeyCode::Tab, false);
    assert_eq!(app.actions_state.selected_section, 0);
    assert_eq!(app.actions_state.selected_thread_id(), Some(1));
}
