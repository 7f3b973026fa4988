//! The rows of the list screens: the inbox with its filter rail, the
//! drafts with their preview, the command palette and the search prompt.

use vstd::prelude::*;
use crate::commands::read::subject_or_default;
use crate::index::query::{DraftReviewRow, ThreadListRow};
use crate::text::{decimal_int, pad_right, pad_right_spec, push_decimal_i64, push_str, str_eq};
use crate::threading::opt_view;
use crate::ui::command_palette::{command_view, CommandDefinition};
use crate::ui::screen::{line_of, lines_view, one, push_line, toned, Piece, ScreenLine, Tone};
use crate::ui::views::{compact_spec, compact_timestamp};
use crate::ui::workspace::{workspace_label, Workspace};

verus! {

/// The inbox filters: a label and the thread state it keeps (all threads
/// for none).
pub open spec fn inbox_filters_spec() -> Seq<(Seq<char>, Option<Seq<char>>)> {
    seq![
        ("All"@, None),
        ("Needs Reply"@, Some("waiting_on_me"@)),
        ("Waiting"@, Some("waiting_on_them"@)),
        ("Low Value"@, Some("low_value"@)),
    ]
}

pub fn inbox_filters() -> (r: Vec<(&'static str, Option<&'static str>)>)
    ensures
        r@.map_values(
            |p: (&'static str, Option<&'static str>)|
                (p.0@, match p.1 {
                    Some(s) => Some(s@),
                    None => None,
                }),
        ) == inbox_filters_spec(),
{
    let mut v: Vec<(&'static str, Option<&'static str>)> = Vec::new();
    v.push(("All", None));
    v.push(("Needs Reply", Some("waiting_on_me")));
    v.push(("Waiting", Some("waiting_on_them")));
    v.push(("Low Value", Some("low_value")));
    assert(v@.map_values(
        |p: (&'static str, Option<&'static str>)|
            (p.0@, match p.1 {
                Some(s) => Some(s@),
                None => None,
            }),
    ) =~= inbox_filters_spec());
    v
}

/// The filter rail: each filter's label after a space, in the active colour
/// for the filter in force and muted otherwise.
pub open spec fn filter_rail_spec(filter: Option<Seq<char>>) -> Seq<Seq<(Tone, Seq<char>)>> {
    inbox_filters_spec().map_values(
        |f: (Seq<char>, Option<Seq<char>>)|
            one(if f.1 == filter { Tone::Active } else { Tone::Muted }, " "@ + f.0),
    )
}

pub fn filter_rail_lines(filter: &Option<String>) -> (r: Vec<ScreenLine>)
    ensures
        lines_view(r@) == filter_rail_spec(opt_view(*filter)),
{
    let filters = inbox_filters();
    let ghost fs = inbox_filters_spec();
    let mut out: Vec<ScreenLine> = Vec::new();
    let mut i: usize = 0;
    while i < filters.len()
        invariant
            i <= filters@.len(),
            filters@.len() == fs.len(),
            forall|k: int| 0 <= k < fs.len() ==> (#[trigger] filters@[k]).0@ == fs[k].0 && (match filters@[k].1 {
                Some(s) => Some(s@),
                None => None,
            }) == fs[k].1,
            fs == inbox_filters_spec(),
            lines_view(out@) == filter_rail_spec(opt_view(*filter)).take(i as int),
        decreases filters@.len() - i,
    {
        let (label, value) = filters[i];
        proof {
            assert(filters@[i as int].0@ == fs[i as int].0);
        }
        let active = match (filter, value) {
            (None, None) => true,
            (Some(f), Some(v)) => str_eq(f.as_str(), v),
            _ => false,
        };
        let mut t = " ".to_string();
        push_str(&mut t, label);
        proof {
            assert(fs[i as int].1 == (match value {
                Some(s) => Some(s@),
                None => None::<Seq<char>>,
            }));
            assert(active == (fs[i as int].1 == opt_view(*filter)));
            assert(filter_rail_spec(opt_view(*filter))[i as int] == one(
                if active { Tone::Active } else { Tone::Muted },
                " "@ + fs[i as int].0,
            ));
        }
        let ghost prev = lines_view(out@);
        push_line(&mut out, toned(if active { Tone::Active } else { Tone::Muted }, t));
        assert(filter_rail_spec(opt_view(*filter)).take(i + 1) =~= filter_rail_spec(opt_view(*filter)).take(
            i as int,
        ).push(filter_rail_spec(opt_view(*filter))[i as int]));
        i = i + 1;
        assert(lines_view(out@) =~= filter_rail_spec(opt_view(*filter)).take(i as int));
    }
    assert(filter_rail_spec(opt_view(*filter)).take(i as int) =~= filter_rail_spec(opt_view(*filter)));
    out
}

/// The colour of a thread's state tag.
pub open spec fn state_tone_spec(state: Option<Seq<char>>) -> Tone {
    if state == Some("waiting_on_me"@) {
        Tone::NeedsReply
    } else if state == Some("waiting_on_them"@) {
        Tone::Waiting
    } else if state == Some("low_value"@) {
        Tone::LowValue
    } else {
        Tone::Muted
    }
}

/// An inbox row: the state tag padded to fourteen characters between
/// spaces, the subject, and the message count in brackets when above one.
pub open spec fn inbox_row_spec(r: ThreadListRow) -> Seq<(Tone, Seq<char>)> {
    let tag = match r.state {
        Some(s) => s@,
        None => "?"@,
    };
    seq![
        (state_tone_spec(opt_view(r.state)), " "@ + pad_right_spec(tag, 14) + " "@),
        (Tone::Text, subject_or_default(r.subject)),
        (Tone::Dim, if r.message_count > 1 {
            " ("@ + decimal_int(r.message_count as int) + ")"@
        } else {
            Seq::empty()
        }),
    ]
}

pub fn inbox_row(row: &ThreadListRow) -> (r: ScreenLine)
    ensures
        r@ == inbox_row_spec(*row),
{
    let tone = match &row.state {
        Some(s) => {
            if str_eq(s.as_str(), "waiting_on_me") {
                Tone::NeedsReply
            } else if str_eq(s.as_str(), "waiting_on_them") {
                Tone::Waiting
            } else if str_eq(s.as_str(), "low_value") {
                Tone::LowValue
            } else {
                Tone::Muted
            }
        },
        None => Tone::Muted,
    };
    let mut tag = " ".to_string();
    match &row.state {
        Some(s) => push_str(&mut tag, pad_right(s.as_str(), 14).as_str()),
        None => push_str(&mut tag, pad_right("?", 14).as_str()),
    }
    push_str(&mut tag, " ");
    let subject = match &row.subject {
        Some(s) => s.clone(),
        None => "(no subject)".to_string(),
    };
    let count = if row.message_count > 1 {
        let mut c = " (".to_string();
        push_decimal_i64(&mut c, row.message_count);
        push_str(&mut c, ")");
        c
    } else {
        String::new()
    };
    let mut pieces: Vec<Piece> = Vec::new();
    pieces.push(Piece { tone, text: tag });
    pieces.push(Piece { tone: Tone::Text, text: subject });
    pieces.push(Piece { tone: Tone::Dim, text: count });
    let r = line_of(pieces);
    assert(r@ =~= inbox_row_spec(*row));
    r
}

/// What a draft is about: its thread, or a standalone draft.
pub open spec fn draft_subject_spec(thread_id: Option<i64>) -> Seq<char> {
    match thread_id {
        Some(t) => "thread #"@ + decimal_int(t as int),
        None => "standalone draft"@,
    }
}

/// Who wrote a draft: provider and model joined by a slash, whichever of
/// them is known, else its source.
pub open spec fn draft_origin_spec(d: DraftReviewRow) -> Seq<char> {
    match (d.provider, d.model) {
        (Some(p), Some(m)) => p@ + "/"@ + m@,
        (Some(p), None) => p@,
        (None, Some(m)) => m@,
        (None, None) => d.source@,
    }
}

/// A draft row: id, status padded to eight, what it is about, who wrote it
/// and when it was created.
pub open spec fn draft_row_spec(d: DraftReviewRow) -> Seq<(Tone, Seq<char>)> {
    seq![
        (Tone::Dim, "["@ + decimal_int(d.id as int) + "] "@),
        (Tone::Status, pad_right_spec(d.approval_status@, 8)),
        (Tone::Plain, "  "@),
        (Tone::Text, draft_subject_spec(d.thread_id)),
        (Tone::Plain, "  "@),
        (Tone::Dim, draft_origin_spec(d)),
        (Tone::Plain, "  "@),
        (Tone::Dim, compact_spec(d.created_at@)),
    ]
}

fn draft_subject(thread_id: Option<i64>) -> (r: String)
    ensures
        r@ == draft_subject_spec(thread_id),
{
    match thread_id {
        Some(t) => {
            let mut s = "thread #".to_string();
            push_decimal_i64(&mut s, t);
            s
        },
        None => "standalone draft".to_string(),
    }
}

fn draft_origin(d: &DraftReviewRow) -> (r: String)
    ensures
        r@ == draft_origin_spec(*d),
{
    match (&d.provider, &d.model) {
        (Some(p), Some(m)) => {
            let mut s = p.clone();
            push_str(&mut s, "/");
            push_str(&mut s, m.as_str());
            s
        },
        (Some(p), None) => p.clone(),
        (None, Some(m)) => m.clone(),
        (None, None) => d.source.clone(),
    }
}

pub fn draft_row(d: &DraftReviewRow) -> (r: ScreenLine)
    ensures
        r@ == draft_row_spec(*d),
{
    let mut id = "[".to_string();
    push_decimal_i64(&mut id, d.id);
    push_str(&mut id, "] ");
    let mut pieces: Vec<Piece> = Vec::new();
    pieces.push(Piece { tone: Tone::Dim, text: id });
    pieces.push(Piece { tone: Tone::Status, text: pad_right(d.approval_status.as_str(), 8) });
    pieces.push(Piece { tone: Tone::Plain, text: "  ".to_string() });
    pieces.push(Piece { tone: Tone::Text, text: draft_subject(d.thread_id) });
    pieces.push(Piece { tone: Tone::Plain, text: "  ".to_string() });
    pieces.push(Piece { tone: Tone::Dim, text: draft_origin(d) });
    pieces.push(Piece { tone: Tone::Plain, text: "  ".to_string() });
    pieces.push(Piece { tone: Tone::Dim, text: compact_timestamp(d.created_at.as_str()) });
    let r = line_of(pieces);
    assert(r@ =~= draft_row_spec(*d));
    r
}

pub open spec fn dash_or(s: Option<Seq<char>>) -> Seq<char> {
    match s {
        Some(v) => v,
        None => "-"@,
    }
}

/// The preview of the selected draft: its status, thread, recipients,
/// provider, model and whether it has a rationale, then the body heading
/// and the body, which the review list does not carry.
pub open spec fn draft_preview_spec(d: DraftReviewRow) -> Seq<Seq<(Tone, Seq<char>)>> {
    seq![
        seq![(Tone::Dim, "status: "@), (Tone::Status, d.approval_status@)],
        seq![(Tone::Dim, "thread: "@), (Tone::Plain, match d.thread_id {
            Some(t) => decimal_int(t as int),
            None => "-"@,
        })],
        seq![(Tone::Dim, "to: "@), (Tone::Plain, "-"@)],
        seq![(Tone::Dim, "provider: "@), (Tone::Plain, dash_or(opt_view(d.provider)))],
        seq![(Tone::Dim, "model: "@), (Tone::Plain, dash_or(opt_view(d.model)))],
        seq![(Tone::Dim, "rationale: "@), (Tone::Plain, if d.has_rationale { "yes"@ } else { "no"@ })],
        Seq::empty(),
        one(Tone::Text, "Body"@),
        one(Tone::Dim, "────"@),
        one(Tone::Plain, "Draft body unavailable"@),
    ]
}

fn pair_line(label: &str, tone: Tone, value: String) -> (r: ScreenLine)
    ensures
        r@ == seq![(Tone::Dim, label@), (tone, value@)],
{
    let mut pieces: Vec<Piece> = Vec::new();
    pieces.push(Piece { tone: Tone::Dim, text: label.to_string() });
    pieces.push(Piece { tone, text: value });
    let r = line_of(pieces);
    assert(r@ =~= seq![(Tone::Dim, label@), (tone, value@)]);
    r
}

fn dash_or_text(s: &Option<String>) -> (r: String)
    ensures
        r@ == dash_or(opt_view(*s)),
{
    match s {
        Some(v) => v.clone(),
        None => "-".to_string(),
    }
}

pub fn draft_preview_lines(d: &DraftReviewRow) -> (r: Vec<ScreenLine>)
    ensures
        lines_view(r@) == draft_preview_spec(*d),
{
    let thread = match d.thread_id {
        Some(t) => {
            let mut s = String::new();
            push_decimal_i64(&mut s, t);
            assert(s@ =~= decimal_int(t as int));
            s
        },
        None => "-".to_string(),
    };
    let mut out: Vec<ScreenLine> = Vec::new();
    push_line(&mut out, pair_line("status: ", Tone::Status, d.approval_status.clone()));
    push_line(&mut out, pair_line("thread: ", Tone::Plain, thread));
    push_line(&mut out, pair_line("to: ", Tone::Plain, "-".to_string()));
    push_line(&mut out, pair_line("provider: ", Tone::Plain, dash_or_text(&d.provider)));
    push_line(&mut out, pair_line("model: ", Tone::Plain, dash_or_text(&d.model)));
    push_line(
        &mut out,
        pair_line(
            "rationale: ",
            Tone::Plain,
            if d.has_rationale {
                "yes".to_string()
            } else {
                "no".to_string()
            },
        ),
    );
    let blank = line_of(Vec::new());
    assert(blank@ =~= Seq::<(Tone, Seq<char>)>::empty());
    push_line(&mut out, blank);
    push_line(&mut out, toned(Tone::Text, "Body".to_string()));
    push_line(&mut out, toned(Tone::Dim, "────".to_string()));
    push_line(&mut out, toned(Tone::Plain, "Draft body unavailable".to_string()));
    proof {
        let sp = draft_preview_spec(*d);
        let lv = lines_view(out@);
        assert(lv.len() == sp.len());
        assert(lv[0] == sp[0]);
        assert(lv[1] == sp[1]);
        assert(lv[2] == sp[2]);
        assert(lv[3] == sp[3]);
        assert(lv[4] == sp[4]);
        assert(lv[5] == sp[5]);
        assert(lv[6] == sp[6]);
        assert(lv[7] == sp[7]);
        assert(lv[8] == sp[8]);
        assert(lv[9] == sp[9]);
    }
    assert(lines_view(out@) =~= draft_preview_spec(*d));
    out
}

/// A palette entry: its label, highlighted when selected, then a dim dash
/// and its hint.
pub open spec fn palette_row_spec(c: (Seq<char>, Seq<char>, crate::ui::command_palette::ActionView), selected: bool) -> Seq<(Tone, Seq<char>)> {
    seq![(if selected { Tone::Selection } else { Tone::Text }, c.0), (Tone::Dim, " — "@ + c.1)]
}

pub open spec fn palette_rows_spec(cs: Seq<(Seq<char>, Seq<char>, crate::ui::command_palette::ActionView)>, selected: nat) -> Seq<Seq<(Tone, Seq<char>)>> {
    Seq::new(cs.len(), |i: int| palette_row_spec(cs[i], i == selected))
}

/// The listed commands, the selected one highlighted.
pub fn palette_rows(commands: &Vec<CommandDefinition>, selected: usize) -> (r: Vec<ScreenLine>)
    ensures
        lines_view(r@) == palette_rows_spec(
            commands@.map_values(|c: CommandDefinition| command_view(c)),
            selected as nat,
        ),
{
    let ghost cs = commands@.map_values(|c: CommandDefinition| command_view(c));
    let mut out: Vec<ScreenLine> = Vec::new();
    let mut i: usize = 0;
    while i < commands.len()
        invariant
            i <= commands@.len(),
            cs == commands@.map_values(|c: CommandDefinition| command_view(c)),
            lines_view(out@) == palette_rows_spec(cs, selected as nat).take(i as int),
        decreases commands@.len() - i,
    {
        let c = commands[i];
        let mut hint = " — ".to_string();
        push_str(&mut hint, c.hint);
        let mut pieces: Vec<Piece> = Vec::new();
        pieces.push(
            Piece {
                tone: if i == selected { Tone::Selection } else { Tone::Text },
                text: c.label.to_string(),
            },
        );
        pieces.push(Piece { tone: Tone::Dim, text: hint });
        let l = line_of(pieces);
        assert(cs[i as int] == command_view(c));
        assert(l@ =~= palette_row_spec(cs[i as int], i == selected));
        push_line(&mut out, l);
        i = i + 1;
        assert(lines_view(out@) =~= palette_rows_spec(cs, selected as nat).take(i as int));
    }
    assert(palette_rows_spec(cs, selected as nat).take(i as int) =~= palette_rows_spec(cs, selected as nat));
    out
}

/// The palette's input line: a prompt, the filter typed so far and a
/// cursor block.
pub open spec fn palette_input_spec(filter: Seq<char>) -> Seq<(Tone, Seq<char>)> {
    seq![(Tone::Accent, ": "@), (Tone::Plain, filter), (Tone::Plain, "█"@)]
}

pub fn palette_input_line(filter: &str) -> (r: ScreenLine)
    ensures
        r@ == palette_input_spec(filter@),
{
    let mut pieces: Vec<Piece> = Vec::new();
    pieces.push(Piece { tone: Tone::Accent, text: ": ".to_string() });
    pieces.push(Piece { tone: Tone::Plain, text: filter.to_string() });
    pieces.push(Piece { tone: Tone::Plain, text: "█".to_string() });
    let r = line_of(pieces);
    assert(r@ =~= palette_input_spec(filter@));
    r
}

/// The search prompt: the query, or a hint (a space while typing) when it is
/// empty, then a cursor block while typing.
pub open spec fn search_prompt_spec(query: Seq<char>, editing: bool) -> Seq<(Tone, Seq<char>)> {
    seq![
        (Tone::Dim, "/ "@),
        (Tone::Plain, if query.len() == 0 {
            if editing {
                " "@
            } else {
                "Type a query…"@
            }
        } else {
            query
        }),
        (Tone::Plain, if editing { "█"@ } else { Seq::empty() }),
    ]
}

pub fn search_prompt_line(query: &str, editing: bool) -> (r: ScreenLine)
    ensures
        r@ == search_prompt_spec(query@, editing),
{
    let shown = if query.is_empty() {
        if editing {
            " ".to_string()
        } else {
            "Type a query…".to_string()
        }
    } else {
        query.to_string()
    };
    let mut pieces: Vec<Piece> = Vec::new();
    pieces.push(Piece { tone: Tone::Dim, text: "/ ".to_string() });
    pieces.push(Piece { tone: Tone::Plain, text: shown });
    pieces.push(Piece { tone: Tone::Plain, text: if editing { "█".to_string() } else { String::new() } });
    let r = line_of(pieces);
    assert(r@ =~= search_prompt_spec(query@, editing));
    r
}

/// A section's frame title: the title between spaces, starred when the
/// section has the focus.
pub open spec fn section_title_spec(title: Seq<char>, active: bool) -> Seq<char> {
    " "@ + title + if active {
        " * "@
    } else {
        " "@
    }
}

pub fn section_title(title: &str, active: bool) -> (r: String)
    ensures
        r@ == section_title_spec(title@, active),
{
    let mut t = " ".to_string();
    push_str(&mut t, title);
    if active {
        push_str(&mut t, " * ");
    } else {
        push_str(&mut t, " ");
    }
    t
}

/// The text of the pending-drafts panel of the actions screen.
pub fn pending_drafts_text(n: i64) -> (r: String)
    ensures
        r@ == "Pending Drafts: "@ + decimal_int(n as int),
{
    let mut t = "Pending Drafts: ".to_string();
    push_decimal_i64(&mut t, n);
    t
}

pub open spec fn all_workspaces() -> Seq<Workspace> {
    seq![
        Workspace::Brief,
        Workspace::Inbox,
        Workspace::Thread,
        Workspace::Search,
        Workspace::Actions,
        Workspace::Drafts,
    ]
}

/// The top bar: the application's name, a separator, then each workspace's
/// label, the active one highlighted.
pub open spec fn top_bar_spec(active: Workspace) -> Seq<(Tone, Seq<char>)> {
    seq![(Tone::Title, " cour "@), (Tone::Dim, "│ "@)] + all_workspaces().map_values(
        |w: Workspace| (if w == active { Tone::Active } else { Tone::Muted }, " "@ + workspace_label(w) + " "@),
    )
}

pub fn top_bar_line(active: Workspace) -> (r: ScreenLine)
    ensures
        r@ == top_bar_spec(active),
{
    let all = Workspace::all();
    let mut pieces: Vec<Piece> = Vec::new();
    pieces.push(Piece { tone: Tone::Title, text: " cour ".to_string() });
    pieces.push(Piece { tone: Tone::Dim, text: "│ ".to_string() });
    let ghost head = pieces@.map_values(|p: Piece| p@);
    let mut i: usize = 0;
    while i < all.len()
        invariant
            i <= all@.len(),
            all@ == all_workspaces(),
            pieces@.map_values(|p: Piece| p@) == head + all_workspaces().take(i as int).map_values(
                |w: Workspace| (if w == active { Tone::Active } else { Tone::Muted }, " "@ + workspace_label(w) + " "@),
            ),
        decreases all@.len() - i,
    {
        let w = all[i];
        let mut t = " ".to_string();
        push_str(&mut t, w.label());
        push_str(&mut t, " ");
        let ghost before = pieces@;
        let piece = Piece { tone: if w == active { Tone::Active } else { Tone::Muted }, text: t };
        pieces.push(piece);
        assert(pieces@.map_values(|p: Piece| p@) =~= before.map_values(|p: Piece| p@).push(piece@));
        assert(all_workspaces()[i as int] == w);
        assert(all_workspaces().take(i + 1) =~= all_workspaces().take(i as int).push(w));
        i = i + 1;
        assert(pieces@.map_values(|p: Piece| p@) =~= head + all_workspaces().take(i as int).map_values(
            |w: Workspace| (if w == active { Tone::Active } else { Tone::Muted }, " "@ + workspace_label(w) + " "@),
        ));
    }
    assert(all_workspaces().take(i as int) =~= all_workspaces());
    let r = line_of(pieces);
    assert(r@ =~= top_bar_spec(active));
    r
}

} // verus!
