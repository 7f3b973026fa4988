//! Naming the mailboxes found under a Maildir root.

use vstd::prelude::*;
use crate::text::{lower_seq, seq_le, seq_lt, string_views, trim_start_ch};

verus! {

/// A mailbox found under a Maildir root.
#[derive(Debug, Clone, PartialEq, Eq)]
pub struct DiscoveredMailbox {
    pub name: String,
    pub path: String,
    pub special_use: Option<String>,
}

/// A directory with `cur`, `new` and `tmp` found while walking a root: its
/// path and the names of the directories leading to it from the root.
#[derive(Debug, Clone, PartialEq, Eq)]
pub struct FoundMailbox {
    pub path: String,
    pub parts: Vec<String>,
}

/// Whether the walk goes into a directory: not into a mailbox's own `cur`,
/// `new` and `tmp`.
pub open spec fn descends_into(name: Seq<char>) -> bool {
    name != "cur"@ && name != "new"@ && name != "tmp"@
}

pub fn descend_into(name: &str) -> (b: bool)
    ensures
        b == descends_into(name@),
{
    !(crate::text::str_eq(name, "cur") || crate::text::str_eq(name, "new") || crate::text::str_eq(
        name,
        "tmp",
    ))
}

/// The parts of a mailbox name: each directory name without its leading
/// dots, empty ones dropped.
pub open spec fn name_parts(parts: Seq<Seq<char>>) -> Seq<Seq<char>>
    decreases parts.len(),
{
    if parts.len() == 0 {
        Seq::empty()
    } else {
        let t = trim_start_ch(parts.last(), '.');
        if t.len() == 0 {
            name_parts(parts.drop_last())
        } else {
            name_parts(parts.drop_last()).push(t)
        }
    }
}

/// A mailbox's name: the cleaned parts joined by `/`, or `Inbox` for the
/// root itself (and when no part is left).
pub open spec fn mailbox_name_spec(parts: Seq<Seq<char>>) -> Seq<char> {
    if name_parts(parts).len() == 0 {
        "Inbox"@
    } else {
        crate::text::join_spec(name_parts(parts), "/"@)
    }
}

pub fn mailbox_name(parts: &Vec<String>) -> (r: String)
    ensures
        r@ == mailbox_name_spec(string_views(parts@)),
{
    let mut cleaned: Vec<String> = Vec::new();
    let mut i: usize = 0;
    while i < parts.len()
        invariant
            i <= parts@.len(),
            string_views(cleaned@) == name_parts(string_views(parts@.take(i as int))),
        decreases parts@.len() - i,
    {
        proof {
            assert(string_views(parts@.take(i + 1)).drop_last() =~= string_views(parts@.take(i as int)));
            assert(string_views(parts@.take(i + 1)).last() == parts@[i as int]@);
        }
        let v = crate::text::chars_of(parts[i].as_str());
        let t = trim_leading_dots(v.as_slice());
        if t.len() > 0 {
            cleaned.push(crate::text::string_from(t.as_slice()));
            assert(string_views(cleaned@) =~= name_parts(string_views(parts@.take(i + 1))));
        }
        i = i + 1;
    }
    assert(parts@.take(parts@.len() as int) =~= parts@);
    if cleaned.len() == 0 {
        "Inbox".to_string()
    } else {
        crate::text::join_strings(&cleaned, "/")
    }
}

fn trim_leading_dots(v: &[char]) -> (r: Vec<char>)
    ensures
        r@ == trim_start_ch(v@, '.'),
{
    let mut i: usize = 0;
    while i < v.len() && v[i] == '.'
        invariant
            i <= v@.len(),
            forall|k: int| 0 <= k < i ==> #[trigger] v@[k] == '.',
        decreases v@.len() - i,
    {
        i = i + 1;
    }
    proof {
        crate::text::lemma_trim_start_ch_skip(v@, '.', i as int);
        if i < v.len() {
            let t = v@.skip(i as int);
            assert(t[0] != '.');
            assert(trim_start_ch(t, '.') == t);
        } else {
            assert(v@.skip(i as int) =~= Seq::<char>::empty());
        }
    }
    crate::text::slice_range(v, i, v.len())
}

/// The special use a mailbox name suggests, ignoring ASCII case.
pub open spec fn special_use_spec(name: Seq<char>) -> Option<Seq<char>> {
    let n = lower_seq(name);
    if n == "inbox"@ {
        Some("inbox"@)
    } else if n == "sent"@ || n == "sent mail"@ || n == "sent messages"@ {
        Some("sent"@)
    } else if n == "drafts"@ {
        Some("drafts"@)
    } else if n == "trash"@ || n == "deleted"@ || n == "deleted messages"@ {
        Some("trash"@)
    } else if n == "archive"@ || n == "all mail"@ {
        Some("archive"@)
    } else {
        None
    }
}

/// The folder names that mark a special use, lower-cased, each with its use.
pub open spec fn special_use_names() -> Seq<(Seq<char>, Seq<char>)> {
    seq![
        ("inbox"@, "inbox"@),
        ("sent"@, "sent"@),
        ("sent mail"@, "sent"@),
        ("sent messages"@, "sent"@),
        ("drafts"@, "drafts"@),
        ("trash"@, "trash"@),
        ("deleted"@, "trash"@),
        ("deleted messages"@, "trash"@),
        ("archive"@, "archive"@),
        ("all mail"@, "archive"@),
    ]
}

/// A mailbox whose name is one of the listed names in any ASCII case has
/// that name's special use (so `Trash`, `Deleted` and `Deleted Messages` are
/// `trash`, `Drafts` is `drafts`, `Archive` and `All Mail` are `archive`);
/// any other name has none.
pub proof fn law_special_use_by_name(name: Seq<char>)
    ensures
        forall|k: int|
            0 <= k < special_use_names().len() && lower_seq(name) == (#[trigger] special_use_names()[k]).0
                ==> special_use_spec(name) == Some(special_use_names()[k].1),
        (forall|k: int| 0 <= k < special_use_names().len() ==> lower_seq(name) != (#[trigger] special_use_names()[k]).0)
            ==> special_use_spec(name) is None,
{
    reveal_strlit("inbox");
    reveal_strlit("sent");
    reveal_strlit("sent mail");
    reveal_strlit("sent messages");
    reveal_strlit("drafts");
    reveal_strlit("trash");
    reveal_strlit("deleted");
    reveal_strlit("deleted messages");
    reveal_strlit("archive");
    reveal_strlit("all mail");
    let t = special_use_names();
    assert(t[0].0 == "inbox"@ && t[1].0 == "sent"@ && t[2].0 == "sent mail"@ && t[3].0 == "sent messages"@);
    assert(t[4].0 == "drafts"@ && t[5].0 == "trash"@ && t[6].0 == "deleted"@ && t[7].0 == "deleted messages"@);
    assert(t[8].0 == "archive"@ && t[9].0 == "all mail"@);
    let n = lower_seq(name);
    if n == "inbox"@ || n == "sent"@ || n == "sent mail"@ || n == "sent messages"@ || n == "drafts"@
        || n == "trash"@ || n == "deleted"@ || n == "deleted messages"@ || n == "archive"@ || n == "all mail"@ {
        assert(n.len() > 0);
        assert(n[0] == 'i' || n[0] == 's' || n[0] == 'd' || n[0] == 't' || n[0] == 'a');
    }
}

pub fn special_use_for_name(name: &str) -> (r: Option<String>)
    ensures
        crate::threading::opt_view(r) == special_use_spec(name@),
{
    let lowered = crate::text::to_ascii_lower(name);
    let n = lowered.as_str();
    if crate::text::str_eq(n, "inbox") {
        Some("inbox".to_string())
    } else if crate::text::str_eq(n, "sent") || crate::text::str_eq(n, "sent mail")
        || crate::text::str_eq(n, "sent messages") {
        Some("sent".to_string())
    } else if crate::text::str_eq(n, "drafts") {
        Some("drafts".to_string())
    } else if crate::text::str_eq(n, "trash") || crate::text::str_eq(n, "deleted")
        || crate::text::str_eq(n, "deleted messages") {
        Some("trash".to_string())
    } else if crate::text::str_eq(n, "archive") || crate::text::str_eq(n, "all mail") {
        Some("archive".to_string())
    } else {
        None
    }
}

pub type MailboxView = (Seq<char>, Seq<char>, Option<Seq<char>>);

pub open spec fn mailbox_view(m: DiscoveredMailbox) -> MailboxView {
    (m.name@, m.path@, crate::threading::opt_view(m.special_use))
}

pub open spec fn mailbox_views(v: Seq<DiscoveredMailbox>) -> Seq<MailboxView> {
    v.map_values(|m: DiscoveredMailbox| mailbox_view(m))
}

/// The mailbox described by a found directory.
pub open spec fn describe(f: FoundMailbox) -> MailboxView {
    let name = mailbox_name_spec(string_views(f.parts@));
    (name, f.path@, special_use_spec(name))
}

/// `ms` with `m` placed after every mailbox whose name is not greater.
pub open spec fn insert_by_name(ms: Seq<MailboxView>, m: MailboxView) -> Seq<MailboxView>
    decreases ms.len(),
{
    if ms.len() == 0 {
        seq![m]
    } else if seq_le(ms.last().0, m.0) {
        ms.push(m)
    } else {
        insert_by_name(ms.drop_last(), m).push(ms.last())
    }
}

/// The found mailboxes described and ordered by name, mailboxes of equal
/// name kept in the order they were found.
pub open spec fn discovered_spec(found: Seq<FoundMailbox>) -> Seq<MailboxView>
    decreases found.len(),
{
    if found.len() == 0 {
        Seq::empty()
    } else {
        insert_by_name(discovered_spec(found.drop_last()), describe(found.last()))
    }
}

fn insert_mailbox(ms: &mut Vec<DiscoveredMailbox>, m: DiscoveredMailbox)
    ensures
        mailbox_views(final(ms)@) == insert_by_name(mailbox_views(old(ms)@), mailbox_view(m)),
    decreases old(ms)@.len(),
{
    let n = ms.len();
    if n == 0 {
        ms.push(m);
        assert(mailbox_views(ms@) =~= seq![mailbox_view(m)]);
        return ;
    }
    let last_le = !crate::text::str_lt(m.name.as_str(), ms[n - 1].name.as_str());
    proof {
        let a = ms@[n - 1].name@;
        let b = m.name@;
        crate::text::lemma_seq_lt_total(a, b);
        crate::text::lemma_seq_lt_asym(a, b);
        assert(mailbox_views(old(ms)@).last().0 == a);
    }
    if last_le {
        ms.push(m);
        assert(mailbox_views(ms@) =~= mailbox_views(old(ms)@).push(mailbox_view(m)));
    } else {
        let last = ms.pop().unwrap();
        assert(mailbox_views(ms@) =~= mailbox_views(old(ms)@).drop_last());
        insert_mailbox(ms, m);
        ms.push(last);
        assert(mailbox_views(ms@) =~= insert_by_name(mailbox_views(old(ms)@), mailbox_view(m)));
    }
}

/// The mailboxes found under a root, named and ordered by name.
pub fn discover_mailboxes(found: &[FoundMailbox]) -> (r: Vec<DiscoveredMailbox>)
    ensures
        mailbox_views(r@) == discovered_spec(found@),
{
    let mut out: Vec<DiscoveredMailbox> = Vec::new();
    let mut i: usize = 0;
    while i < found.len()
        invariant
            i <= found@.len(),
            mailbox_views(out@) == discovered_spec(found@.take(i as int)),
        decreases found@.len() - i,
    {
        proof {
            assert(found@.take(i + 1).drop_last() =~= found@.take(i as int));
        }
        let f = &found[i];
        let name = mailbox_name(&f.parts);
        let special_use = special_use_for_name(name.as_str());
        insert_mailbox(&mut out, DiscoveredMailbox { name, path: f.path.clone(), special_use });
        i = i + 1;
    }
    assert(found@.take(found@.len() as int) =~= found@);
    out
}

} // verus!
