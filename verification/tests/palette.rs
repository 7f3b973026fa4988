use cour::ui::command_palette::{CommandAction, CommandPaletteState};
use cour::ui::workspace::Workspace;

#[test]
fn command_palette_filters_by_substring() {
    let mut state = CommandPaletteState::new();
    state.filter = "draft".to_string();

    let commands = state.filtered_commands();
    assert!(!commands.is_empty());
    assert!(commands.iter().all(|command| {
        command.label.to_ascii_lowercase().contains("draft")
            || command.hint.to_ascii_lowercase().contains("draft")
    }));
    assert!(commands.iter().any(|command| command.label == "Go to Drafts"));
}

#[test]
fn empty_filter_lists_every_command_and_moves_stay_in_range() {
    let mut state = CommandPaletteState::new();
    state.open();
    let all = state.filtered_commands();
    assert_eq!(all.len(), 9);
    for _ in 0..20 {
        state.move_down();
    }
    assert_eq!(state.selected, 8);
    state.move_up();
    assert_eq!(state.selected, 7);
    state.push_filter('S');
    state.push_filter('y');
    assert_eq!(state.selected, 0);
    let selected = state.selected_command().expect("sync command");
    assert_eq!(selected.label, "Sync accounts");
    assert!(matches!(selected.action, CommandAction::ShowStatus(_)));
    state.pop_filter();
    assert_eq!(state.filter, "S");
    state.close();
    assert!(!state.open);
    assert_eq!(state.filter, "");
}

#[test]
fn palette_drafts_command_switches_workspace() {
    let mut state = CommandPaletteState::new();
    state.filter = "go to drafts".to_string();
    let c = state.selected_command().expect("a command");
    assert_eq!(c.action, CommandAction::SwitchWorkspace(Workspace::Drafts));
    assert_eq!(Workspace::Drafts.label(), "drafts");
}
