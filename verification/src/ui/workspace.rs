//! The workspaces of the main screen.

use vstd::prelude::*;

verus! {

#[derive(Debug, Clone, Copy, PartialEq, Eq, Structural)]
pub enum Workspace {
    Brief,
    Inbox,
    Thread,
    Search,
    Actions,
    Drafts,
}

pub open spec fn workspace_label(w: Workspace) -> Seq<char> {
    match w {
        Workspace::Brief => "brief"@,
        Workspace::Inbox => "inbox"@,
        Workspace::Thread => "thread"@,
        Workspace::Search => "search"@,
        Workspace::Actions => "actions"@,
        Workspace::Drafts => "drafts"@,
    }
}

impl Workspace {
    /// The name shown in the top bar.
    pub fn label(&self) -> (r: &'static str)
        ensures
            r@ == workspace_label(*self),
    {
        match self {
            Workspace::Brief => "brief",
            Workspace::Inbox => "inbox",
            Workspace::Thread => "thread",
            Workspace::Search => "search",
            Workspace::Actions => "actions",
            Workspace::Drafts => "drafts",
        }
    }

    /// All workspaces in top-bar order.
    pub fn all() -> (r: Vec<Workspace>)
        ensures
            r@ == seq![
                Workspace::Brief,
                Workspace::Inbox,
                Workspace::Thread,
                Workspace::Search,
                Workspace::Actions,
                Workspace::Drafts,
            ],
    {
        let r = vec![
            Workspace::Brief,
            Workspace::Inbox,
            Workspace::Thread,
            Workspace::Search,
            Workspace::Actions,
            Workspace::Drafts,
        ];
        r
    }
}

impl Default for Workspace {
    fn default() -> (r: Self)
        ensures
            r == Workspace::Brief,
    {
        Workspace::Brief
    }
}

} // verus!
