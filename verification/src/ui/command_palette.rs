//! The command palette: a filtered list of commands to pick from.

use vstd::prelude::*;
use crate::text::{has_sub, lower_seq, trim_ws};
use crate::ui::workspace::Workspace;

verus! {

#[derive(Debug, Clone, Copy, PartialEq, Eq)]
pub enum CommandAction {
    SwitchWorkspace(Workspace),
    RefreshCurrent,
    StartSearchEdit,
    ShowStatus(&'static str),
}

/// An action with its message taken by its characters.
pub enum ActionView {
    Switch(Workspace),
    Refresh,
    StartSearch,
    Status(Seq<char>),
}

pub open spec fn action_view(a: CommandAction) -> ActionView {
    match a {
        CommandAction::SwitchWorkspace(w) => ActionView::Switch(w),
        CommandAction::RefreshCurrent => ActionView::Refresh,
        CommandAction::StartSearchEdit => ActionView::StartSearch,
        CommandAction::ShowStatus(m) => ActionView::Status(m@),
    }
}

#[derive(Debug, Clone, Copy, PartialEq, Eq)]
pub struct CommandDefinition {
    pub label: &'static str,
    pub hint: &'static str,
    pub action: CommandAction,
}

pub open spec fn command_view(c: CommandDefinition) -> (Seq<char>, Seq<char>, ActionView) {
    (c.label@, c.hint@, action_view(c.action))
}

/// The commands, in the order the palette lists them.
pub open spec fn commands_spec() -> Seq<(Seq<char>, Seq<char>, ActionView)> {
    seq![
        ("Go to Brief"@, "Switch to the brief workspace"@, ActionView::Switch(Workspace::Brief)),
        ("Go to Inbox"@, "Switch to the inbox workspace"@, ActionView::Switch(Workspace::Inbox)),
        ("Go to Search"@, "Switch to the search workspace"@, ActionView::Switch(Workspace::Search)),
        ("Go to Actions"@, "Switch to the actions workspace"@, ActionView::Switch(Workspace::Actions)),
        ("Go to Drafts"@, "Switch to the drafts workspace"@, ActionView::Switch(Workspace::Drafts)),
        ("Refresh current workspace"@, "Reload the current list or view"@, ActionView::Refresh),
        ("Start search"@, "Focus the search query input"@, ActionView::StartSearch),
        (
            "Reindex mail"@,
            "Not wired yet; shows a status message"@,
            ActionView::Status("Reindex is not wired into the command palette yet"@),
        ),
        (
            "Sync accounts"@,
            "Not wired yet; shows a status message"@,
            ActionView::Status("Sync is not wired into the command palette yet"@),
        ),
    ]
}

pub fn commands() -> (r: Vec<CommandDefinition>)
    ensures
        r@.map_values(|c: CommandDefinition| command_view(c)) == commands_spec(),
{
    let r = vec![
        CommandDefinition {
            label: "Go to Brief",
            hint: "Switch to the brief workspace",
            action: CommandAction::SwitchWorkspace(Workspace::Brief),
        },
        CommandDefinition {
            label: "Go to Inbox",
            hint: "Switch to the inbox workspace",
            action: CommandAction::SwitchWorkspace(Workspace::Inbox),
        },
        CommandDefinition {
            label: "Go to Search",
            hint: "Switch to the search workspace",
            action: CommandAction::SwitchWorkspace(Workspace::Search),
        },
        CommandDefinition {
            label: "Go to Actions",
            hint: "Switch to the actions workspace",
            action: CommandAction::SwitchWorkspace(Workspace::Actions),
        },
        CommandDefinition {
            label: "Go to Drafts",
            hint: "Switch to the drafts workspace",
            action: CommandAction::SwitchWorkspace(Workspace::Drafts),
        },
        CommandDefinition {
            label: "Refresh current workspace",
            hint: "Reload the current list or view",
            action: CommandAction::RefreshCurrent,
        },
        CommandDefinition {
            label: "Start search",
            hint: "Focus the search query input",
            action: CommandAction::StartSearchEdit,
        },
        CommandDefinition {
            label: "Reindex mail",
            hint: "Not wired yet; shows a status message",
            action: CommandAction::ShowStatus("Reindex is not wired into the command palette yet"),
        },
        CommandDefinition {
            label: "Sync accounts",
            hint: "Not wired yet; shows a status message",
            action: CommandAction::ShowStatus("Sync is not wired into the command palette yet"),
        },
    ];
    assert(r@.map_values(|c: CommandDefinition| command_view(c)) =~= commands_spec());
    r
}

/// Whether a command is listed under the (trimmed, lower-cased) filter `f`:
/// always when `f` is empty, else when its label or hint contains `f`
/// ignoring ASCII case.
pub open spec fn command_matches(c: (Seq<char>, Seq<char>, ActionView), f: Seq<char>) -> bool {
    f.len() == 0 || has_sub(lower_seq(c.0), f) || has_sub(lower_seq(c.1), f)
}

/// The commands listed under `f`, in order.
pub open spec fn matching(cs: Seq<(Seq<char>, Seq<char>, ActionView)>, f: Seq<char>) -> Seq<(Seq<char>, Seq<char>, ActionView)>
    decreases cs.len(),
{
    if cs.len() == 0 {
        Seq::empty()
    } else {
        matching(cs.drop_last(), f) + if command_matches(cs.last(), f) {
            seq![cs.last()]
        } else {
            Seq::empty()
        }
    }
}

/// The filter as commands are matched against it.
pub open spec fn filter_key(filter: Seq<char>) -> Seq<char> {
    lower_seq(trim_ws(filter))
}

pub open spec fn filtered_spec(filter: Seq<char>) -> Seq<(Seq<char>, Seq<char>, ActionView)> {
    matching(commands_spec(), filter_key(filter))
}

#[derive(Debug, Clone)]
pub struct CommandPaletteState {
    pub open: bool,
    pub filter: String,
    pub selected: usize,
}

impl CommandPaletteState {
    pub fn new() -> (r: Self)
        ensures
            !r.open,
            r.filter@.len() == 0,
            r.selected == 0,
    {
        CommandPaletteState { open: false, filter: String::new(), selected: 0 }
    }

    /// Shows the palette with an empty filter and the first command selected.
    pub fn open(&mut self)
        ensures
            final(self).open,
            final(self).filter@.len() == 0,
            final(self).selected == 0,
    {
        self.open = true;
        self.filter = String::new();
        self.selected = 0;
    }

    /// Hides the palette and forgets its filter.
    pub fn close(&mut self)
        ensures
            !final(self).open,
            final(self).filter@.len() == 0,
            final(self).selected == 0,
    {
        self.open = false;
        self.filter = String::new();
        self.selected = 0;
    }

    /// The commands whose label or hint contains the filter.
    pub fn filtered_commands(&self) -> (r: Vec<CommandDefinition>)
        ensures
            r@.map_values(|c: CommandDefinition| command_view(c)) == filtered_spec(self.filter@),
    {
        let f = crate::text::to_ascii_lower(crate::text::trim(self.filter.as_str()).as_str());
        let all = commands();
        let mut out: Vec<CommandDefinition> = Vec::new();
        let mut i: usize = 0;
        let ghost cs = commands_spec();
        while i < all.len()
            invariant
                i <= all@.len(),
                all@.map_values(|c: CommandDefinition| command_view(c)) == cs,
                f@ == filter_key(self.filter@),
                out@.map_values(|c: CommandDefinition| command_view(c)) == matching(
                    cs.take(i as int),
                    f@,
                ),
            decreases all@.len() - i,
        {
            let c = all[i];
            proof {
                assert(cs[i as int] == command_view(c));
                assert(cs.take(i + 1).drop_last() =~= cs.take(i as int));
                assert(cs.take(i + 1).last() == cs[i as int]);
            }
            let keep = f.as_str().is_empty() || crate::text::contains_str(
                crate::text::to_ascii_lower(c.label).as_str(),
                f.as_str(),
            ) || crate::text::contains_str(crate::text::to_ascii_lower(c.hint).as_str(), f.as_str());
            if keep {
                out.push(c);
            }
            assert(out@.map_values(|c: CommandDefinition| command_view(c)) =~= matching(
                cs.take(i + 1),
                f@,
            ));
            i = i + 1;
        }
        assert(cs.take(all@.len() as int) =~= cs);
        out
    }

    /// Down: the next listed command, staying on the last; an empty list
    /// selects the first place.
    pub fn move_down(&mut self)
        ensures
            final(self).open == old(self).open,
            final(self).filter == old(self).filter,
            final(self).selected == (if filtered_spec(old(self).filter@).len() == 0 {
                0
            } else {
                crate::ui::views::next_index(
                    old(self).selected as nat,
                    filtered_spec(old(self).filter@).len(),
                )
            }),
    {
        let len = self.filtered_commands().len();
        if len == 0 {
            self.selected = 0;
        } else if self.selected < len - 1 {
            self.selected = self.selected + 1;
        } else {
            self.selected = len - 1;
        }
    }

    /// Up: the previous command, staying on the first.
    pub fn move_up(&mut self)
        ensures
            final(self).open == old(self).open,
            final(self).filter == old(self).filter,
            final(self).selected == crate::ui::views::previous_index(old(self).selected as nat),
    {
        if self.selected > 0 {
            self.selected = self.selected - 1;
        }
    }

    /// The selected command, when the selection is on one.
    pub fn selected_command(&self) -> (r: Option<CommandDefinition>)
        ensures
            match r {
                Some(c) => self.selected < filtered_spec(self.filter@).len() && command_view(c)
                    == filtered_spec(self.filter@)[self.selected as int],
                None => self.selected >= filtered_spec(self.filter@).len(),
            },
    {
        let cs = self.filtered_commands();
        if self.selected < cs.len() {
            let c = cs[self.selected];
            assert(command_view(c) == cs@.map_values(|c: CommandDefinition| command_view(c))[self.selected as int]);
            Some(c)
        } else {
            None
        }
    }

    /// Typing: the character added to the filter, the first command selected.
    pub fn push_filter(&mut self, ch: char)
        ensures
            final(self).open == old(self).open,
            final(self).filter@ == old(self).filter@.push(ch),
            final(self).selected == 0,
    {
        self.filter.push(ch);
        self.selected = 0;
    }

    /// Backspace: the last filter character removed, the first command
    /// selected.
    pub fn pop_filter(&mut self)
        ensures
            final(self).open == old(self).open,
            final(self).filter@ == (if old(self).filter@.len() == 0 {
                old(self).filter@
            } else {
                old(self).filter@.drop_last()
            }),
            final(self).selected == 0,
    {
        self.filter.pop();
        self.selected = 0;
    }
}

/// Every listed command matches the filter.
pub proof fn law_listed_commands_match(filter: Seq<char>)
    ensures
        forall|k: int| 0 <= k < filtered_spec(filter).len() ==> #[trigger] command_matches(
            filtered_spec(filter)[k],
            filter_key(filter),
        ),
{
    lemma_matching_matches(commands_spec(), filter_key(filter));
}

proof fn lemma_matching_matches(cs: Seq<(Seq<char>, Seq<char>, ActionView)>, f: Seq<char>)
    ensures
        forall|k: int| 0 <= k < matching(cs, f).len() ==> #[trigger] command_matches(matching(cs, f)[k], f),
    decreases cs.len(),
{
    if cs.len() > 0 {
        lemma_matching_matches(cs.drop_last(), f);
        let prev = matching(cs.drop_last(), f);
        assert forall|k: int| 0 <= k < matching(cs, f).len() implies #[trigger] command_matches(
            matching(cs, f)[k],
            f,
        ) by {
            if k < prev.len() {
                assert(matching(cs, f)[k] == prev[k]);
            }
        }
    }
}

} // verus!
