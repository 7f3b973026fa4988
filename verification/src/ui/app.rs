//! The main screen's key handling: which workspace is shown, what a key
//! changes, and which loads from the index it asks for.

use vstd::prelude::*;
use crate::index::query::{DraftReviewRow, ThreadDetailRow, ThreadListRow};
use crate::ui::command_palette::{
    ActionView, CommandAction, CommandPaletteState, action_view, command_view, filtered_spec,
};
use crate::ui::keys::KeyCode;
use crate::ui::views::{
    ActionsState, DraftsState, InboxState, SearchState, ThreadViewState, clamp_index, clamp_signed,
    next_index, previous_index,
};
pub use crate::ui::workspace::Workspace;

verus! {

#[derive(Debug, Clone, Copy, PartialEq, Eq, Structural)]
pub enum FocusMode {
    Navigation,
    EditingSearch,
}

/// A load from the index that a key asks for; the program performs it and
/// hands the rows to the matching `App::show_*` function.
#[derive(Debug, Clone, Copy, PartialEq, Eq, Structural)]
pub enum AppEffect {
    RefreshInbox,
    RefreshDrafts,
    RefreshActions,
    ExecuteSearch,
    LoadThread(i64),
}

/// The main screen.
#[derive(Debug, Clone)]
pub struct App {
    pub workspace: Workspace,
    pub running: bool,
    pub db_path: String,
    pub status_message: Option<String>,
    pub focus_mode: FocusMode,
    pub previous_workspace: Workspace,
    pub inbox_state: InboxState,
    pub thread_state: ThreadViewState,
    pub search_state: SearchState,
    pub drafts_state: DraftsState,
    pub actions_state: ActionsState,
    pub command_palette_state: CommandPaletteState,
}

pub type InboxView = (Seq<ThreadListRow>, nat, Option<Seq<char>>);
pub type ThreadView = (Option<i64>, Option<ThreadDetailRow>, nat);
pub type SearchView = (Seq<char>, bool, Seq<i64>, nat);
pub type DraftsView = (Seq<DraftReviewRow>, nat);
pub type ActionsView = (Seq<ThreadListRow>, Seq<ThreadListRow>, i64, nat, nat);
pub type PaletteView = (bool, Seq<char>, nat);

#[verifier::ext_equal]
pub struct AppView {
    pub workspace: Workspace,
    pub running: bool,
    pub db_path: Seq<char>,
    pub status: Option<Seq<char>>,
    pub focus: FocusMode,
    pub previous: Workspace,
    pub inbox: InboxView,
    pub thread: ThreadView,
    pub search: SearchView,
    pub drafts: DraftsView,
    pub actions: ActionsView,
    pub palette: PaletteView,
}

impl View for App {
    type V = AppView;

    open spec fn view(&self) -> AppView {
        AppView {
            workspace: self.workspace,
            running: self.running,
            db_path: self.db_path@,
            status: crate::threading::opt_view(self.status_message),
            focus: self.focus_mode,
            previous: self.previous_workspace,
            inbox: (
                self.inbox_state.threads@,
                self.inbox_state.selected as nat,
                crate::threading::opt_view(self.inbox_state.filter),
            ),
            thread: (
                self.thread_state.thread_id,
                self.thread_state.detail,
                self.thread_state.scroll_offset as nat,
            ),
            search: (
                self.search_state.query@,
                self.search_state.editing,
                self.search_state.result_threads@,
                self.search_state.selected as nat,
            ),
            drafts: (self.drafts_state.drafts@, self.drafts_state.selected as nat),
            actions: (
                self.actions_state.needs_reply@,
                self.actions_state.waiting_on_them@,
                self.actions_state.pending_drafts,
                self.actions_state.selected_section as nat,
                self.actions_state.selected_row as nat,
            ),
            palette: (
                self.command_palette_state.open,
                self.command_palette_state.filter@,
                self.command_palette_state.selected as nat,
            ),
        }
    }
}

pub type Step = (AppView, Seq<AppEffect>);

pub open spec fn no_effects(m: AppView) -> Step {
    (m, Seq::empty())
}

pub open spec fn enter_edit(m: AppView) -> AppView {
    AppView {
        focus: FocusMode::EditingSearch,
        search: (m.search.0, true, m.search.2, m.search.3),
        ..m
    }
}

pub open spec fn exit_edit(m: AppView) -> AppView {
    AppView { focus: FocusMode::Navigation, search: (m.search.0, false, m.search.2, m.search.3), ..m }
}

/// Showing workspace `ws`: the workspace left is remembered unless it was
/// the thread view, messages and search typing end, and the new workspace's
/// list is reloaded (the search screen with no query starts typing) when the
/// index can be opened.
pub open spec fn switch_spec(m: AppView, ws: Workspace, db: bool) -> Step {
    let prev = if m.workspace != Workspace::Thread {
        m.workspace
    } else {
        m.previous
    };
    let m1 = AppView {
        previous: prev,
        workspace: ws,
        status: None,
        ..exit_edit(m)
    };
    if !db {
        no_effects(m1)
    } else {
        match ws {
            Workspace::Inbox => (m1, seq![AppEffect::RefreshInbox]),
            Workspace::Drafts => (m1, seq![AppEffect::RefreshDrafts]),
            Workspace::Actions => (m1, seq![AppEffect::RefreshActions]),
            Workspace::Search => if m1.search.0.len() == 0 {
                no_effects(enter_edit(m1))
            } else {
                no_effects(m1)
            },
            _ => no_effects(m1),
        }
    }
}

/// Opening a thread: the thread view shown from its top, the current
/// workspace remembered, and its messages loaded when the index opens.
pub open spec fn open_thread_spec(m: AppView, id: i64, db: bool) -> Step {
    let m1 = AppView {
        previous: m.workspace,
        workspace: Workspace::Thread,
        thread: (Some(id), None, 0),
        ..exit_edit(m)
    };
    (m1, if db {
        seq![AppEffect::LoadThread(id)]
    } else {
        Seq::empty()
    })
}

/// Leaving the thread view for the workspace it was opened from (the inbox
/// when that was the thread view itself).
pub open spec fn return_spec(m: AppView, db: bool) -> Step {
    switch_spec(
        m,
        if m.previous == Workspace::Thread {
            Workspace::Inbox
        } else {
            m.previous
        },
        db,
    )
}

pub open spec fn nothing_to_refresh() -> Seq<char> {
    "Nothing to refresh in this workspace yet"@
}

pub open spec fn refresh_spec(m: AppView, db: bool) -> Step {
    match m.workspace {
        Workspace::Inbox => (m, if db { seq![AppEffect::RefreshInbox] } else { Seq::empty() }),
        Workspace::Drafts => (m, if db { seq![AppEffect::RefreshDrafts] } else { Seq::empty() }),
        Workspace::Actions => (m, if db { seq![AppEffect::RefreshActions] } else { Seq::empty() }),
        Workspace::Search => if m.search.0.len() == 0 {
            no_effects(enter_edit(m))
        } else if db {
            (exit_edit(m), seq![AppEffect::ExecuteSearch])
        } else {
            no_effects(m)
        },
        _ => no_effects(AppView { status: Some(nothing_to_refresh()), ..m }),
    }
}

pub open spec fn execute_spec(m: AppView, a: ActionView, db: bool) -> Step {
    match a {
        ActionView::Switch(w) => switch_spec(m, w, db),
        ActionView::Refresh => refresh_spec(m, db),
        ActionView::StartSearch => {
            let s = switch_spec(m, Workspace::Search, db);
            (enter_edit(s.0), s.1)
        },
        ActionView::Status(msg) => no_effects(AppView { status: Some(msg), ..m }),
    }
}

pub open spec fn with_palette(m: AppView, p: PaletteView) -> AppView {
    AppView { palette: p, ..m }
}

/// A key while the palette is open: Esc closes it, `j`/`k` and the arrows
/// move, Enter runs the selected command and closes it, other printable
/// characters filter.
pub open spec fn palette_key_spec(m: AppView, code: KeyCode, db: bool) -> Step {
    let p = m.palette;
    let listed = filtered_spec(p.1);
    match code {
        KeyCode::Esc => no_effects(with_palette(m, (false, Seq::empty(), 0))),
        KeyCode::Backspace => no_effects(
            with_palette(
                m,
                (p.0, if p.1.len() == 0 {
                    p.1
                } else {
                    p.1.drop_last()
                }, 0),
            ),
        ),
        KeyCode::Down => no_effects(
            with_palette(
                m,
                (p.0, p.1, if listed.len() == 0 {
                    0
                } else {
                    next_index(p.2, listed.len())
                }),
            ),
        ),
        KeyCode::Up => no_effects(with_palette(m, (p.0, p.1, previous_index(p.2)))),
        KeyCode::Enter => {
            let s = if p.2 < listed.len() {
                execute_spec(m, listed[p.2 as int].2, db)
            } else {
                no_effects(m)
            };
            (with_palette(s.0, (false, Seq::empty(), 0)), s.1)
        },
        KeyCode::Char(c) => if c == 'j' {
            no_effects(
                with_palette(
                    m,
                    (p.0, p.1, if listed.len() == 0 {
                        0
                    } else {
                        next_index(p.2, listed.len())
                    }),
                ),
            )
        } else if c == 'k' {
            no_effects(with_palette(m, (p.0, p.1, previous_index(p.2))))
        } else if !crate::text::is_control(c) {
            no_effects(with_palette(m, (p.0, p.1.push(c), 0)))
        } else {
            no_effects(m)
        },
        _ => no_effects(m),
    }
}

pub open spec fn is_down(code: KeyCode) -> bool {
    code == KeyCode::Down || code == KeyCode::Char('j')
}

pub open spec fn is_up(code: KeyCode) -> bool {
    code == KeyCode::Up || code == KeyCode::Char('k')
}

pub open spec fn actions_rows(a: ActionsView) -> Seq<ThreadListRow> {
    if a.3 == 0 {
        a.0
    } else if a.3 == 1 {
        a.1
    } else {
        Seq::empty()
    }
}

pub open spec fn actions_selected(a: ActionsView) -> Option<i64> {
    if a.4 < actions_rows(a).len() {
        Some(actions_rows(a)[a.4 as int].id)
    } else {
        None
    }
}

pub open spec fn actions_move_row(a: ActionsView, delta: int) -> ActionsView {
    let len = actions_rows(a).len();
    (a.0, a.1, a.2, a.3, if len == 0 {
        0
    } else {
        clamp_signed(a.4 + delta, len)
    })
}

pub open spec fn actions_move_section(a: ActionsView) -> ActionsView {
    let s = ((a.3 + 1) % 3) as nat;
    let b = (a.0, a.1, a.2, s, a.4);
    (a.0, a.1, a.2, s, clamp_index(a.4, actions_rows(b).len()))
}

/// Keys of the workspace shown, when no global key applies.
pub open spec fn workspace_key_spec(m: AppView, code: KeyCode, db: bool) -> Step {
    match m.workspace {
        Workspace::Inbox => {
            let i = m.inbox;
            if is_down(code) {
                no_effects(AppView { inbox: (i.0, next_index(i.1, i.0.len()), i.2), ..m })
            } else if is_up(code) {
                no_effects(AppView { inbox: (i.0, previous_index(i.1), i.2), ..m })
            } else if code == KeyCode::Enter {
                if i.1 < i.0.len() {
                    open_thread_spec(m, i.0[i.1 as int].id, db)
                } else {
                    no_effects(m)
                }
            } else if code == KeyCode::Char('r') {
                (m, if db { seq![AppEffect::RefreshInbox] } else { Seq::empty() })
            } else {
                no_effects(m)
            }
        },
        Workspace::Thread => {
            let t = m.thread;
            if is_down(code) {
                no_effects(AppView {
                    thread: (t.0, t.1, if t.2 == usize::MAX { t.2 } else { t.2 + 1 }),
                    ..m
                })
            } else if is_up(code) {
                no_effects(AppView { thread: (t.0, t.1, previous_index(t.2)), ..m })
            } else if code == KeyCode::Esc {
                return_spec(m, db)
            } else {
                no_effects(m)
            }
        },
        Workspace::Search => {
            let s = m.search;
            if code == KeyCode::Char('/') {
                no_effects(enter_edit(m))
            } else if code == KeyCode::Enter {
                if s.3 < s.2.len() {
                    open_thread_spec(m, s.2[s.3 as int], db)
                } else {
                    no_effects(enter_edit(m))
                }
            } else if is_down(code) {
                no_effects(AppView {
                    search: (s.0, s.1, s.2, if s.2.len() == 0 { 0 } else { next_index(s.3, s.2.len()) }),
                    ..m
                })
            } else if is_up(code) {
                no_effects(AppView { search: (s.0, s.1, s.2, previous_index(s.3)), ..m })
            } else if code == KeyCode::Esc {
                no_effects(exit_edit(m))
            } else {
                no_effects(m)
            }
        },
        Workspace::Drafts => {
            let d = m.drafts;
            if is_down(code) {
                no_effects(AppView { drafts: (d.0, next_index(d.1, d.0.len())), ..m })
            } else if is_up(code) {
                no_effects(AppView {
                    drafts: (d.0, if d.0.len() == 0 { d.1 } else { previous_index(d.1) }),
                    ..m
                })
            } else if code == KeyCode::Char('r') {
                (m, if db { seq![AppEffect::RefreshDrafts] } else { Seq::empty() })
            } else {
                no_effects(m)
            }
        },
        Workspace::Actions => {
            let a = m.actions;
            if code == KeyCode::Tab {
                no_effects(AppView { actions: actions_move_section(a), ..m })
            } else if is_down(code) {
                no_effects(AppView { actions: actions_move_row(a, 1), ..m })
            } else if is_up(code) {
                no_effects(AppView { actions: actions_move_row(a, -1), ..m })
            } else if code == KeyCode::Enter {
                match actions_selected(a) {
                    Some(id) => open_thread_spec(m, id, db),
                    None => no_effects(m),
                }
            } else if code == KeyCode::Char('r') {
                (m, if db { seq![AppEffect::RefreshActions] } else { Seq::empty() })
            } else {
                no_effects(m)
            }
        },
        _ => no_effects(m),
    }
}

pub open spec fn help_spec(ws: Workspace, focus: FocusMode) -> Seq<char> {
    if ws == Workspace::Search && focus == FocusMode::EditingSearch {
        "Search edit · type query  Enter run  Esc stop editing  b/i/s/a/d switch  : commands"@
    } else {
        match ws {
            Workspace::Inbox =>
                "Inbox · j/k move  Enter open thread  b/i/s/a/d switch  q quit  : commands  ? help"@,
            Workspace::Thread =>
                "Thread · j/k scroll  Esc back  b/i/s/a/d switch  q quit  : commands  ? help"@,
            Workspace::Search =>
                "Search · j/k move  Enter open  / edit query  Esc clear focus  b/i/s/a/d switch"@,
            Workspace::Actions =>
                "Actions · Tab section  j/k move  Enter open  b/i/s/a/d switch  q quit  : commands"@,
            Workspace::Drafts =>
                "Drafts · j/k move  r refresh  b/i/s/a/d switch  q quit  : commands  ? help"@,
            Workspace::Brief => "Brief · b/i/s/a/d switch  q quit  : commands  ? help"@,
        }
    }
}

/// A key on the main screen: the palette takes every key while open; `:`
/// opens it; while a search is typed, characters edit the query, Enter runs
/// it and Esc stops typing; otherwise `q` quits, `b`/`i`/`s`/`a`/`d` switch
/// workspace, `?` shows the help, and the rest goes to the workspace.
pub open spec fn key_spec(m: AppView, code: KeyCode, db: bool) -> Step {
    if m.palette.0 {
        palette_key_spec(m, code, db)
    } else if code == KeyCode::Char(':') {
        no_effects(with_palette(m, (true, Seq::empty(), 0)))
    } else if m.workspace == Workspace::Search && m.focus == FocusMode::EditingSearch {
        let s = m.search;
        match code {
            KeyCode::Char(c) => if !crate::text::is_control(c) {
                no_effects(AppView { search: (s.0.push(c), s.1, s.2, s.3), ..m })
            } else {
                no_effects(m)
            },
            KeyCode::Backspace => no_effects(AppView {
                search: (if s.0.len() == 0 { s.0 } else { s.0.drop_last() }, s.1, s.2, s.3),
                ..m
            }),
            KeyCode::Enter => (exit_edit(m), if db {
                seq![AppEffect::ExecuteSearch]
            } else {
                Seq::empty()
            }),
            KeyCode::Esc => no_effects(exit_edit(m)),
            _ => no_effects(m),
        }
    } else if code == KeyCode::Char('q') {
        no_effects(AppView { running: false, ..m })
    } else if code == KeyCode::Char('b') {
        switch_spec(m, Workspace::Brief, db)
    } else if code == KeyCode::Char('i') {
        switch_spec(m, Workspace::Inbox, db)
    } else if code == KeyCode::Char('s') {
        switch_spec(m, Workspace::Search, db)
    } else if code == KeyCode::Char('a') {
        switch_spec(m, Workspace::Actions, db)
    } else if code == KeyCode::Char('d') {
        switch_spec(m, Workspace::Drafts, db)
    } else if code == KeyCode::Char('?') {
        no_effects(AppView { status: Some(help_spec(m.workspace, m.focus)), ..m })
    } else {
        workspace_key_spec(m, code, db)
    }
}


impl App {
    /// The main screen on the brief, before anything is loaded.
    pub fn new(db_path: String) -> (r: App)
        ensures
            r@.workspace == Workspace::Brief,
            r@.running,
            r@.db_path == db_path@,
            r@.status is None,
            r@.focus == FocusMode::Navigation,
            r@.previous == Workspace::Inbox,
            r@.inbox.0.len() == 0 && r@.inbox.1 == 0 && r@.inbox.2 is None,
            r@.thread == (None::<i64>, None::<ThreadDetailRow>, 0nat),
            r@.search.0.len() == 0 && !r@.search.1 && r@.search.2.len() == 0 && r@.search.3 == 0,
            r@.drafts.0.len() == 0 && r@.drafts.1 == 0,
            r@.actions.0.len() == 0 && r@.actions.1.len() == 0 && r@.actions.2 == 0
                && r@.actions.3 == 0 && r@.actions.4 == 0,
            !r@.palette.0 && r@.palette.1.len() == 0 && r@.palette.2 == 0,
    {
        App {
            workspace: Workspace::Brief,
            running: true,
            db_path,
            status_message: None,
            focus_mode: FocusMode::Navigation,
            previous_workspace: Workspace::Inbox,
            inbox_state: InboxState::new(),
            thread_state: ThreadViewState::new(),
            search_state: SearchState::new(),
            drafts_state: DraftsState::new(),
            actions_state: ActionsState::new(),
            command_palette_state: CommandPaletteState::new(),
        }
    }

    pub fn enter_search_edit_mode(&mut self)
        ensures
            final(self)@ == enter_edit(old(self)@),
    {
        self.focus_mode = FocusMode::EditingSearch;
        self.search_state.editing = true;
        assert(self@ =~= enter_edit(old(self)@));
    }

    pub fn exit_search_edit_mode(&mut self)
        ensures
            final(self)@ == exit_edit(old(self)@),
    {
        self.focus_mode = FocusMode::Navigation;
        self.search_state.editing = false;
        assert(self@ =~= exit_edit(old(self)@));
    }

    pub fn switch_workspace(&mut self, ws: Workspace, db: bool, effects: &mut Vec<AppEffect>)
        ensures
            final(self)@ == switch_spec(old(self)@, ws, db).0,
            final(effects)@ == old(effects)@ + switch_spec(old(self)@, ws, db).1,
    {
        if self.workspace != Workspace::Thread {
            self.previous_workspace = self.workspace;
        }
        self.workspace = ws;
        self.status_message = None;
        self.focus_mode = FocusMode::Navigation;
        self.search_state.editing = false;
        let ghost m1 = self@;
        if db {
            match ws {
                Workspace::Inbox => effects.push(AppEffect::RefreshInbox),
                Workspace::Drafts => effects.push(AppEffect::RefreshDrafts),
                Workspace::Actions => effects.push(AppEffect::RefreshActions),
                Workspace::Search => {
                    if self.search_state.query.as_str().is_empty() {
                        self.enter_search_edit_mode();
                    }
                },
                _ => {},
            }
        }
        assert(self@ =~= switch_spec(old(self)@, ws, db).0);
        assert(effects@ =~= old(effects)@ + switch_spec(old(self)@, ws, db).1);
    }

    pub fn open_thread(&mut self, thread_id: i64, db: bool, effects: &mut Vec<AppEffect>)
        ensures
            final(self)@ == open_thread_spec(old(self)@, thread_id, db).0,
            final(effects)@ == old(effects)@ + open_thread_spec(old(self)@, thread_id, db).1,
    {
        self.previous_workspace = self.workspace;
        self.workspace = Workspace::Thread;
        self.focus_mode = FocusMode::Navigation;
        self.search_state.editing = false;
        self.thread_state.show_thread(thread_id);
        if db {
            effects.push(AppEffect::LoadThread(thread_id));
        }
        assert(self@ =~= open_thread_spec(old(self)@, thread_id, db).0);
        assert(effects@ =~= old(effects)@ + open_thread_spec(old(self)@, thread_id, db).1);
    }

    pub fn return_from_thread(&mut self, db: bool, effects: &mut Vec<AppEffect>)
        ensures
            final(self)@ == return_spec(old(self)@, db).0,
            final(effects)@ == old(effects)@ + return_spec(old(self)@, db).1,
    {
        let target = if self.previous_workspace == Workspace::Thread {
            Workspace::Inbox
        } else {
            self.previous_workspace
        };
        self.switch_workspace(target, db, effects);
    }

    pub fn refresh_current_workspace(&mut self, db: bool, effects: &mut Vec<AppEffect>)
        ensures
            final(self)@ == refresh_spec(old(self)@, db).0,
            final(effects)@ == old(effects)@ + refresh_spec(old(self)@, db).1,
    {
        match self.workspace {
            Workspace::Inbox => {
                if db {
                    effects.push(AppEffect::RefreshInbox);
                }
            },
            Workspace::Drafts => {
                if db {
                    effects.push(AppEffect::RefreshDrafts);
                }
            },
            Workspace::Actions => {
                if db {
                    effects.push(AppEffect::RefreshActions);
                }
            },
            Workspace::Search => {
                if self.search_state.query.as_str().is_empty() {
                    self.enter_search_edit_mode();
                } else if db {
                    effects.push(AppEffect::ExecuteSearch);
                    self.exit_search_edit_mode();
                }
            },
            _ => {
                self.status_message = Some("Nothing to refresh in this workspace yet".to_string());
            },
        }
        assert(self@ =~= refresh_spec(old(self)@, db).0);
        assert(effects@ =~= old(effects)@ + refresh_spec(old(self)@, db).1);
    }

    pub fn execute_command(&mut self, action: CommandAction, db: bool, effects: &mut Vec<AppEffect>)
        ensures
            final(self)@ == execute_spec(old(self)@, action_view(action), db).0,
            final(effects)@ == old(effects)@ + execute_spec(old(self)@, action_view(action), db).1,
    {
        match action {
            CommandAction::SwitchWorkspace(w) => self.switch_workspace(w, db, effects),
            CommandAction::RefreshCurrent => self.refresh_current_workspace(db, effects),
            CommandAction::StartSearchEdit => {
                self.switch_workspace(Workspace::Search, db, effects);
                self.enter_search_edit_mode();
            },
            CommandAction::ShowStatus(message) => {
                self.status_message = Some(message.to_string());
                assert(self@ =~= execute_spec(old(self)@, action_view(action), db).0);
                assert(effects@ =~= old(effects)@ + execute_spec(
                    old(self)@,
                    action_view(action),
                    db,
                ).1);
            },
        }
    }

    fn handle_command_palette_key(&mut self, code: KeyCode, db: bool, effects: &mut Vec<AppEffect>)
        ensures
            final(self)@ == palette_key_spec(old(self)@, code, db).0,
            final(effects)@ == old(effects)@ + palette_key_spec(old(self)@, code, db).1,
    {
        let ghost m = self@;
        match code {
            KeyCode::Esc => self.command_palette_state.close(),
            KeyCode::Backspace => self.command_palette_state.pop_filter(),
            KeyCode::Down => self.command_palette_state.move_down(),
            KeyCode::Up => self.command_palette_state.move_up(),
            KeyCode::Enter => {
                match self.command_palette_state.selected_command() {
                    Some(command) => {
                        self.execute_command(command.action, db, effects);
                    },
                    None => {},
                }
                self.command_palette_state.close();
            },
            KeyCode::Char(c) => {
                if c == 'j' {
                    self.command_palette_state.move_down();
                } else if c == 'k' {
                    self.command_palette_state.move_up();
                } else if !crate::text::is_control_char(c) {
                    self.command_palette_state.push_filter(c);
                }
            },
            _ => {},
        }
        assert(self@ =~= palette_key_spec(m, code, db).0);
        assert(effects@ =~= old(effects)@ + palette_key_spec(m, code, db).1);
    }

    fn handle_workspace_key(&mut self, code: KeyCode, db: bool, effects: &mut Vec<AppEffect>)
        ensures
            final(self)@ == workspace_key_spec(old(self)@, code, db).0,
            final(effects)@ == old(effects)@ + workspace_key_spec(old(self)@, code, db).1,
    {
        let ghost m = self@;
        let down = code == KeyCode::Down || code == KeyCode::Char('j');
        let up = code == KeyCode::Up || code == KeyCode::Char('k');
        match self.workspace {
            Workspace::Inbox => {
                if down {
                    self.inbox_state.next();
                } else if up {
                    self.inbox_state.previous();
                } else if code == KeyCode::Enter {
                    match self.inbox_state.selected_thread_id() {
                        Some(id) => self.open_thread(id, db, effects),
                        None => {},
                    }
                } else if code == KeyCode::Char('r') {
                    if db {
                        effects.push(AppEffect::RefreshInbox);
                    }
                }
            },
            Workspace::Thread => {
                if down {
                    self.thread_state.scroll_down();
                } else if up {
                    self.thread_state.scroll_up();
                } else if code == KeyCode::Esc {
                    self.return_from_thread(db, effects);
                }
            },
            Workspace::Search => {
                if code == KeyCode::Char('/') {
                    self.enter_search_edit_mode();
                } else if code == KeyCode::Enter {
                    match self.search_state.selected_thread_id() {
                        Some(id) => self.open_thread(id, db, effects),
                        None => self.enter_search_edit_mode(),
                    }
                } else if down {
                    self.search_state.move_down();
                } else if up {
                    self.search_state.move_up();
                } else if code == KeyCode::Esc {
                    self.exit_search_edit_mode();
                }
            },
            Workspace::Drafts => {
                if down {
                    self.drafts_state.move_next();
                } else if up {
                    self.drafts_state.move_previous();
                } else if code == KeyCode::Char('r') {
                    if db {
                        effects.push(AppEffect::RefreshDrafts);
                    }
                }
            },
            Workspace::Actions => {
                if code == KeyCode::Tab {
                    self.actions_state.move_section(1);
                } else if down {
                    self.actions_state.move_row(1);
                } else if up {
                    self.actions_state.move_row(-1);
                } else if code == KeyCode::Enter {
                    match self.actions_state.selected_thread_id() {
                        Some(id) => self.open_thread(id, db, effects),
                        None => {},
                    }
                } else if code == KeyCode::Char('r') {
                    if db {
                        effects.push(AppEffect::RefreshActions);
                    }
                }
            },
            _ => {},
        }
        assert(self@ =~= workspace_key_spec(m, code, db).0);
        assert(effects@ =~= old(effects)@ + workspace_key_spec(m, code, db).1);
    }

    /// Shows the rows of a `RefreshInbox` load.
    pub fn show_inbox(&mut self, threads: Vec<ThreadListRow>)
        ensures
            final(self)@ == (AppView {
                inbox: (threads@, clamp_index(old(self)@.inbox.1, threads@.len()), old(self)@.inbox.2),
                ..old(self)@
            }),
    {
        self.inbox_state.set_threads(threads);
        assert(self@ =~= (AppView {
            inbox: (threads@, clamp_index(old(self)@.inbox.1, threads@.len()), old(self)@.inbox.2),
            ..old(self)@
        }));
    }

    /// Shows the rows of a `RefreshDrafts` load.
    pub fn show_drafts(&mut self, drafts: Vec<DraftReviewRow>)
        ensures
            final(self)@ == (AppView {
                drafts: (drafts@, clamp_index(old(self)@.drafts.1, drafts@.len())),
                ..old(self)@
            }),
    {
        self.drafts_state.set_drafts(drafts);
        assert(self@ =~= (AppView {
            drafts: (drafts@, clamp_index(old(self)@.drafts.1, drafts@.len())),
            ..old(self)@
        }));
    }

    /// Shows the lists of a `RefreshActions` load.
    pub fn show_actions(&mut self, needs_reply: Vec<ThreadListRow>, waiting_on_them: Vec<ThreadListRow>, pending_drafts: i64)
        ensures
            final(self)@.actions.0 == needs_reply@,
            final(self)@.actions.1 == waiting_on_them@,
            final(self)@.actions.2 == pending_drafts,
            final(self)@.actions.3 == old(self)@.actions.3,
            final(self)@.actions.4 == clamp_index(
                old(self)@.actions.4,
                actions_rows(final(self)@.actions).len(),
            ),
            final(self)@ == (AppView { actions: final(self)@.actions, ..old(self)@ }),
    {
        self.actions_state.set_lists(needs_reply, waiting_on_them, pending_drafts);
        assert(self@ =~= (AppView { actions: self@.actions, ..old(self)@ }));
    }

    /// Shows the result threads of an `ExecuteSearch` load, in order.
    pub fn show_search_results(&mut self, result_threads: Vec<i64>)
        ensures
            final(self)@ == (AppView {
                search: (
                    old(self)@.search.0,
                    old(self)@.search.1,
                    result_threads@,
                    clamp_index(old(self)@.search.3, result_threads@.len()),
                ),
                ..old(self)@
            }),
    {
        self.search_state.set_results(result_threads);
        assert(self@ =~= (AppView {
            search: (
                old(self)@.search.0,
                old(self)@.search.1,
                result_threads@,
                clamp_index(old(self)@.search.3, result_threads@.len()),
            ),
            ..old(self)@
        }));
    }

    /// Shows the messages of a `LoadThread` load (none when it failed).
    pub fn show_thread_detail(&mut self, detail: Option<ThreadDetailRow>)
        ensures
            final(self)@ == (AppView {
                thread: (old(self)@.thread.0, detail, old(self)@.thread.2),
                ..old(self)@
            }),
    {
        self.thread_state.detail = detail;
        assert(self@ =~= (AppView {
            thread: (old(self)@.thread.0, detail, old(self)@.thread.2),
            ..old(self)@
        }));
    }
}

/// The key help for the workspace shown.
pub fn help_text(app: &App) -> (r: &'static str)
    ensures
        r@ == help_spec(app.workspace, app.focus_mode),
{
    if app.workspace == Workspace::Search && app.focus_mode == FocusMode::EditingSearch {
        return "Search edit · type query  Enter run  Esc stop editing  b/i/s/a/d switch  : commands";
    }
    match app.workspace {
        Workspace::Inbox =>
            "Inbox · j/k move  Enter open thread  b/i/s/a/d switch  q quit  : commands  ? help",
        Workspace::Thread =>
            "Thread · j/k scroll  Esc back  b/i/s/a/d switch  q quit  : commands  ? help",
        Workspace::Search =>
            "Search · j/k move  Enter open  / edit query  Esc clear focus  b/i/s/a/d switch",
        Workspace::Actions =>
            "Actions · Tab section  j/k move  Enter open  b/i/s/a/d switch  q quit  : commands",
        Workspace::Drafts =>
            "Drafts · j/k move  r refresh  b/i/s/a/d switch  q quit  : commands  ? help",
        Workspace::Brief => "Brief · b/i/s/a/d switch  q quit  : commands  ? help",
    }
}

/// Applies a key to the main screen (see `key_spec`); `db` says whether the
/// index can be opened. Returns the loads to perform, in order.
pub fn handle_key(app: &mut App, code: KeyCode, db: bool) -> (effects: Vec<AppEffect>)
    ensures
        (final(app)@, effects@) == key_spec(old(app)@, code, db),
{
    let ghost m = app@;
    let mut effects: Vec<AppEffect> = Vec::new();
    if app.command_palette_state.open {
        app.handle_command_palette_key(code, db, &mut effects);
        assert(effects@ =~= key_spec(m, code, db).1);
        return effects;
    }
    if code == KeyCode::Char(':') {
        app.command_palette_state.open();
        assert(app@ =~= key_spec(m, code, db).0);
        return effects;
    }
    if app.workspace == Workspace::Search && app.focus_mode == FocusMode::EditingSearch {
        match code {
            KeyCode::Char(c) => {
                if !crate::text::is_control_char(c) {
                    app.search_state.query.push(c);
                }
            },
            KeyCode::Backspace => {
                app.search_state.query.pop();
            },
            KeyCode::Enter => {
                if db {
                    effects.push(AppEffect::ExecuteSearch);
                }
                app.exit_search_edit_mode();
            },
            KeyCode::Esc => app.exit_search_edit_mode(),
            _ => {},
        }
        assert(app@ =~= key_spec(m, code, db).0);
        assert(effects@ =~= key_spec(m, code, db).1);
        return effects;
    }
    if code == KeyCode::Char('q') {
        app.running = false;
        assert(app@ =~= key_spec(m, code, db).0);
    } else if code == KeyCode::Char('b') {
        app.switch_workspace(Workspace::Brief, db, &mut effects);
    } else if code == KeyCode::Char('i') {
        app.switch_workspace(Workspace::Inbox, db, &mut effects);
    } else if code == KeyCode::Char('s') {
        app.switch_workspace(Workspace::Search, db, &mut effects);
    } else if code == KeyCode::Char('a') {
        app.switch_workspace(Workspace::Actions, db, &mut effects);
    } else if code == KeyCode::Char('d') {
        app.switch_workspace(Workspace::Drafts, db, &mut effects);
    } else if code == KeyCode::Char('?') {
        app.status_message = Some(help_text(app).to_string());
        assert(app@ =~= key_spec(m, code, db).0);
    } else {
        app.handle_workspace_key(code, db, &mut effects);
    }
    assert(effects@ =~= key_spec(m, code, db).1);
    effects
}


/// Escape in a thread opened from another workspace goes back to that
/// workspace, and asks for its list to be reloaded the same way switching to
/// it does.
pub proof fn law_thread_escape_returns(m: AppView, id: i64, db: bool)
    requires
        m.workspace != Workspace::Thread,
        !m.palette.0,
    ensures
        key_spec(open_thread_spec(m, id, db).0, KeyCode::Esc, db).0.workspace == m.workspace,
        key_spec(open_thread_spec(m, id, db).0, KeyCode::Esc, db).1 == switch_spec(
            open_thread_spec(m, id, db).0,
            m.workspace,
            db,
        ).1,
{
}

/// While a search is typed, only Enter and Esc leave the typing; every other
/// key leaves the workspace and the palette as they were.
pub proof fn law_search_typing_keeps_workspace(m: AppView, code: KeyCode, db: bool)
    requires
        !m.palette.0,
        m.workspace == Workspace::Search,
        m.focus == FocusMode::EditingSearch,
        code != KeyCode::Char(':'),
    ensures
        key_spec(m, code, db).0.workspace == Workspace::Search,
        key_spec(m, code, db).0.palette == m.palette,
        (code != KeyCode::Enter && code != KeyCode::Esc) ==> key_spec(m, code, db).0.focus
            == FocusMode::EditingSearch,
{
}

/// Outside the palette and the search typing, `q` quits, `b`, `i`, `s`,
/// `a` and `d` show the brief, inbox, search, actions and drafts workspaces,
/// and `?` shows the keys of the current one; Escape out of the search
/// typing gives these keys back.
pub proof fn law_global_keys(m: AppView, db: bool)
    requires
        !m.palette.0,
    ensures
        !(m.workspace == Workspace::Search && m.focus == FocusMode::EditingSearch) ==> {
            &&& !key_spec(m, KeyCode::Char('q'), db).0.running
            &&& key_spec(m, KeyCode::Char('b'), db).0.workspace == Workspace::Brief
            &&& key_spec(m, KeyCode::Char('i'), db).0.workspace == Workspace::Inbox
            &&& key_spec(m, KeyCode::Char('s'), db).0.workspace == Workspace::Search
            &&& key_spec(m, KeyCode::Char('a'), db).0.workspace == Workspace::Actions
            &&& key_spec(m, KeyCode::Char('d'), db).0.workspace == Workspace::Drafts
            &&& key_spec(m, KeyCode::Char('?'), db).0.status == Some(help_spec(m.workspace, m.focus))
        },
        (m.workspace == Workspace::Search && m.focus == FocusMode::EditingSearch) ==> key_spec(
            key_spec(m, KeyCode::Esc, db).0,
            KeyCode::Char('i'),
            db,
        ).0.workspace == Workspace::Inbox,
{
}

} // verus!
