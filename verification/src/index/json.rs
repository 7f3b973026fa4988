//! The JSON string-list columns of the index (`references_json`, `to_json`,
//! `cc_json`, ...): how a list is written and how it is read back.

use vstd::prelude::*;

use crate::text::{is_ws, lemma_trim_empty_iff_all_ws, trim_ch, trim_end_ch, trim_start_ch, trim_ws};

verus! {

/// The JSON escape of one character, as the writer emits it.
pub open spec fn escape_char(c: char) -> Seq<char> {
    if c == '"' {
        seq!['\\', '"']
    } else if c == '\\' {
        seq!['\\', '\\']
    } else if c == '\n' {
        seq!['\\', 'n']
    } else if c == '\r' {
        seq!['\\', 'r']
    } else if c == '\t' {
        seq!['\\', 't']
    } else {
        seq![c]
    }
}

pub open spec fn json_escape(s: Seq<char>) -> Seq<char>
    decreases s.len(),
{
    if s.len() == 0 {
        Seq::empty()
    } else {
        json_escape(s.drop_last()) + escape_char(s.last())
    }
}

pub open spec fn quoted(s: Seq<char>) -> Seq<char> {
    seq!['"'] + json_escape(s) + seq!['"']
}

/// The quoted strings separated by commas.
pub open spec fn json_body(vs: Seq<Seq<char>>) -> Seq<char>
    decreases vs.len(),
{
    if vs.len() == 0 {
        Seq::empty()
    } else if vs.len() == 1 {
        quoted(vs[0])
    } else {
        json_body(vs.drop_last()) + seq![','] + quoted(vs.last())
    }
}

/// The JSON array text of a list of strings.
pub open spec fn json_list(vs: Seq<Seq<char>>) -> Seq<char> {
    seq!['['] + json_body(vs) + seq![']']
}

pub open spec fn views(vs: Seq<String>) -> Seq<Seq<char>> {
    vs.map_values(|v: String| v@)
}

fn push_escaped(out: &mut String, v: &str)
    ensures
        final(out)@ == old(out)@ + json_escape(v@),
{
    let cs = crate::text::chars_of(v);
    let mut i: usize = 0;
    while i < cs.len()
        invariant
            i <= cs@.len(),
            cs@ == v@,
            out@ == old(out)@ + json_escape(cs@.take(i as int)),
        decreases cs@.len() - i,
    {
        let c = cs[i];
        proof {
            assert(cs@.take(i + 1).drop_last() =~= cs@.take(i as int));
        }
        if c == '"' {
            out.push('\\');
            out.push('"');
        } else if c == '\\' {
            out.push('\\');
            out.push('\\');
        } else if c == '\n' {
            out.push('\\');
            out.push('n');
        } else if c == '\r' {
            out.push('\\');
            out.push('r');
        } else if c == '\t' {
            out.push('\\');
            out.push('t');
        } else {
            out.push(c);
        }
        i = i + 1;
        assert(out@ =~= old(out)@ + json_escape(cs@.take(i as int)));
    }
    assert(cs@.take(cs@.len() as int) =~= cs@);
}

/// The JSON array text of `values`.
pub fn serde_json_string(values: &[String]) -> (r: String)
    ensures
        r@ == json_list(views(values@)),
{
    let mut out = String::new();
    out.push('[');
    let mut i: usize = 0;
    while i < values.len()
        invariant
            i <= values@.len(),
            out@ == seq!['['] + json_body(views(values@).take(i as int)),
        decreases values@.len() - i,
    {
        proof {
            assert(views(values@).take(i + 1).drop_last() =~= views(values@).take(i as int));
            assert(views(values@).take(i + 1).last() == values@[i as int]@);
        }
        if i > 0 {
            out.push(',');
        }
        out.push('"');
        push_escaped(&mut out, values[i].as_str());
        out.push('"');
        i = i + 1;
        proof {
            if i == 1 {
                assert(views(values@).take(1)[0] == values@[0]@);
            }
            assert(out@ =~= seq!['['] + json_body(views(values@).take(i as int)));
        }
    }
    out.push(']');
    assert(views(values@).take(values@.len() as int) =~= views(values@));
    out
}

/// `serde_json_string` of an optional list.
pub fn serde_json_opt_string(values: Option<&[String]>) -> (r: Option<String>)
    ensures
        match values {
            Some(v) => r is Some && r->0@ == json_list(views(v@)),
            None => r is None,
        },
{
    match values {
        Some(v) => Some(serde_json_string(v)),
        None => None,
    }
}

/// The comma-separated pieces of `s` (there is always at least one).
pub open spec fn pieces(s: Seq<char>) -> Seq<Seq<char>>
    decreases s.len(),
{
    if s.len() == 0 {
        seq![Seq::empty()]
    } else {
        let p = pieces(s.drop_last());
        if s.last() == ',' {
            p.push(Seq::empty())
        } else {
            p.update(p.len() - 1, p.last().push(s.last()))
        }
    }
}

/// A piece as the reader cleans it: trimmed, then stripped of quotes.
pub open spec fn clean(x: Seq<char>) -> Seq<char> {
    trim_ch(trim_ws(x), '"')
}

/// The cleaned pieces that are not empty.
pub open spec fn kept(ps: Seq<Seq<char>>) -> Seq<Seq<char>>
    decreases ps.len(),
{
    if ps.len() == 0 {
        Seq::empty()
    } else {
        let k = kept(ps.drop_last());
        if clean(ps.last()).len() > 0 {
            k.push(clean(ps.last()))
        } else {
            k
        }
    }
}

/// What the reader gives back for the column text `raw`: nothing unless the
/// trimmed text is bracketed and has something inside; otherwise its
/// non-empty cleaned comma-separated pieces.
pub open spec fn parse_list_spec(raw: Seq<char>) -> Seq<Seq<char>> {
    let t = trim_ws(raw);
    if t.len() < 2 || t[0] != '[' || t.last() != ']' {
        Seq::empty()
    } else {
        let inner = t.subrange(1, t.len() - 1);
        if trim_ws(inner).len() == 0 {
            Seq::empty()
        } else {
            kept(pieces(inner))
        }
    }
}

pub proof fn lemma_pieces_nonempty(s: Seq<char>)
    ensures
        pieces(s).len() >= 1,
    decreases s.len(),
{
    if s.len() > 0 {
        lemma_pieces_nonempty(s.drop_last());
    }
}

/// Reads a JSON string-list column back: the trimmed text must be `[...]`;
/// its inside is split at commas and each piece is trimmed and stripped of
/// quotes; empty pieces are dropped.
pub fn parse_json_string_list(raw: &str) -> (r: Vec<String>)
    ensures
        views(r@) == parse_list_spec(raw@),
{
    let v = crate::text::chars_of(raw);
    let t = crate::text::trim_vec(v.as_slice());
    if t.len() < 2 || t[0] != '[' || t[t.len() - 1] != ']' {
        let e: Vec<String> = Vec::new();
        assert(views(e@) =~= Seq::<Seq<char>>::empty());
        return e;
    }
    let inner = crate::text::slice_range(t.as_slice(), 1, t.len() - 1);
    if crate::text::trim_vec(inner.as_slice()).len() == 0 {
        let e: Vec<String> = Vec::new();
        assert(views(e@) =~= Seq::<Seq<char>>::empty());
        return e;
    }
    let mut out: Vec<String> = Vec::new();
    let mut cur: Vec<char> = Vec::new();
    let mut i: usize = 0;
    proof {
        assert(inner@.take(0) =~= Seq::<char>::empty());
        assert(pieces(Seq::<char>::empty()).drop_last() =~= Seq::<Seq<char>>::empty());
    }
    while i < inner.len()
        invariant
            i <= inner@.len(),
            views(out@) == kept(pieces(inner@.take(i as int)).drop_last()),
            cur@ == pieces(inner@.take(i as int)).last(),
        decreases inner@.len() - i,
    {
        let c = inner[i];
        let ghost pre = inner@.take(i as int);
        proof {
            assert(inner@.take(i + 1).drop_last() =~= pre);
            assert(inner@.take(i + 1).last() == c);
            lemma_pieces_nonempty(pre);
        }
        if c == ',' {
            let piece = crate::text::trim_char(crate::text::trim_vec(cur.as_slice()).as_slice(), '"');
            if piece.len() > 0 {
                out.push(crate::text::string_from(piece.as_slice()));
            }
            cur = Vec::new();
            proof {
                let p = pieces(pre);
                assert(pieces(inner@.take(i + 1)).drop_last() =~= p);
                assert(p.drop_last().push(p.last()) =~= p);
                assert(views(out@) =~= kept(p));
            }
        } else {
            cur.push(c);
            proof {
                let p = pieces(pre);
                assert(pieces(inner@.take(i + 1)).drop_last() =~= p.drop_last());
            }
        }
        i = i + 1;
    }
    proof {
        assert(inner@.take(inner@.len() as int) =~= inner@);
        lemma_pieces_nonempty(inner@);
        let p = pieces(inner@);
        assert(p.drop_last().push(p.last()) =~= p);
    }
    let piece = crate::text::trim_char(crate::text::trim_vec(cur.as_slice()).as_slice(), '"');
    if piece.len() > 0 {
        out.push(crate::text::string_from(piece.as_slice()));
    }
    proof {
        assert(views(out@) =~= kept(pieces(inner@)));
        crate::text::lemma_trim_bounds_seq(v@);
    }
    out
}


/// A list item that the column format carries unchanged: not empty, and
/// free of commas, quotes, backslashes and the escaped control characters.
pub open spec fn plain_item(v: Seq<char>) -> bool {
    v.len() > 0 && forall|k: int|
        0 <= k < v.len() ==> #[trigger] v[k] != ',' && v[k] != '"' && v[k] != '\\' && v[k] != '\n'
            && v[k] != '\r' && v[k] != '\t'
}

proof fn lemma_escape_plain(v: Seq<char>)
    requires
        forall|k: int|
            0 <= k < v.len() ==> #[trigger] v[k] != '"' && v[k] != '\\' && v[k] != '\n' && v[k]
                != '\r' && v[k] != '\t',
    ensures
        json_escape(v) == v,
    decreases v.len(),
{
    if v.len() > 0 {
        lemma_escape_plain(v.drop_last());
        assert(v.drop_last() + seq![v.last()] =~= v);
    }
}

proof fn lemma_pieces_append(a: Seq<char>, b: Seq<char>)
    requires
        forall|k: int| 0 <= k < b.len() ==> #[trigger] b[k] != ',',
    ensures
        pieces(a + b) == pieces(a).update(pieces(a).len() - 1, pieces(a).last() + b),
    decreases b.len(),
{
    lemma_pieces_nonempty(a);
    if b.len() == 0 {
        assert(a + b =~= a);
        assert(pieces(a).last() + b =~= pieces(a).last());
        assert(pieces(a).update(pieces(a).len() - 1, pieces(a).last()) =~= pieces(a));
    } else {
        let bd = b.drop_last();
        lemma_pieces_append(a, bd);
        assert((a + b).drop_last() =~= a + bd);
        assert((a + b).last() == b.last());
        let p = pieces(a);
        let q = p.update(p.len() - 1, p.last() + bd);
        assert(q.last() == p.last() + bd);
        assert((p.last() + bd).push(b.last()) =~= p.last() + b);
        assert(q.update(q.len() - 1, q.last().push(b.last())) =~= p.update(
            p.len() - 1,
            p.last() + b,
        ));
    }
}

proof fn lemma_quoted_plain(v: Seq<char>)
    requires
        plain_item(v),
    ensures
        quoted(v) == seq!['"'] + v + seq!['"'],
        forall|k: int| 0 <= k < quoted(v).len() ==> #[trigger] quoted(v)[k] != ',',
        quoted(v)[0] == '"',
{
    lemma_escape_plain(v);
    let q = quoted(v);
    assert forall|k: int| 0 <= k < q.len() implies #[trigger] q[k] != ',' by {
        if 0 < k < q.len() - 1 {
            assert(q[k] == v[k - 1]);
        }
    }
}

proof fn lemma_pieces_body(vs: Seq<Seq<char>>)
    requires
        vs.len() >= 1,
        forall|i: int| 0 <= i < vs.len() ==> plain_item(#[trigger] vs[i]),
    ensures
        pieces(json_body(vs)) == vs.map_values(|v: Seq<char>| quoted(v)),
        json_body(vs)[0] == '"',
    decreases vs.len(),
{
    let last = vs.last();
    lemma_quoted_plain(last);
    if vs.len() == 1 {
        lemma_pieces_append(Seq::empty(), quoted(vs[0]));
        assert(Seq::<char>::empty() + quoted(vs[0]) =~= quoted(vs[0]));
        assert(seq![Seq::<char>::empty()].update(0, Seq::<char>::empty() + quoted(vs[0])) =~= vs.map_values(
            |v: Seq<char>| quoted(v),
        ));
    } else {
        let dl = vs.drop_last();
        lemma_pieces_body(dl);
        let bd = json_body(dl);
        let with_comma = bd + seq![','];
        assert(with_comma.drop_last() =~= bd);
        assert(pieces(with_comma) == pieces(bd).push(Seq::<char>::empty()));
        lemma_pieces_append(with_comma, quoted(last));
        assert(json_body(vs) == with_comma + quoted(last));
        let p = pieces(with_comma);
        assert(p.last() + quoted(last) =~= quoted(last));
        assert(p.update(p.len() - 1, p.last() + quoted(last)) =~= vs.map_values(
            |v: Seq<char>| quoted(v),
        ));
        assert(json_body(vs)[0] == bd[0]);
    }
}

proof fn lemma_clean_quoted(v: Seq<char>)
    requires
        plain_item(v),
    ensures
        clean(quoted(v)) == v,
{
    lemma_quoted_plain(v);
    let q = quoted(v);
    crate::threading::lemma_trimmed_fixed(q);
    assert(q.drop_first() =~= v + seq!['"']);
    assert((v + seq!['"'])[0] == v[0]);
    assert(v[0] != '"');
    assert(trim_start_ch(v + seq!['"'], '"') == v + seq!['"']);
    assert(trim_start_ch(q, '"') == trim_start_ch(q.drop_first(), '"'));
    assert(trim_start_ch(q, '"') == v + seq!['"']);
    assert((v + seq!['"']).drop_last() =~= v);
    assert(trim_end_ch(v + seq!['"'], '"') == trim_end_ch(v, '"'));
    assert(v.last() == v[v.len() - 1]);
}

proof fn lemma_kept_quoted(vs: Seq<Seq<char>>)
    requires
        forall|i: int| 0 <= i < vs.len() ==> plain_item(#[trigger] vs[i]),
    ensures
        kept(vs.map_values(|v: Seq<char>| quoted(v))) == vs,
    decreases vs.len(),
{
    if vs.len() > 0 {
        let dl = vs.drop_last();
        lemma_kept_quoted(dl);
        assert(vs.map_values(|v: Seq<char>| quoted(v)).drop_last() =~= dl.map_values(
            |v: Seq<char>| quoted(v),
        ));
        lemma_clean_quoted(vs.last());
        assert(dl.push(vs.last()) =~= vs);
    }
}

/// Reading back a written list gives the list itself, for items that the
/// format carries unchanged (non-empty, without commas, quotes, backslashes,
/// newlines, carriage returns or tabs), such as message ids.
pub proof fn law_json_list_round_trip(vs: Seq<Seq<char>>)
    requires
        forall|i: int| 0 <= i < vs.len() ==> plain_item(#[trigger] vs[i]),
    ensures
        parse_list_spec(json_list(vs)) == vs,
{
    let j = json_list(vs);
    assert(j[0] == '[');
    assert(j.last() == ']');
    crate::threading::lemma_trimmed_fixed(j);
    let inner = j.subrange(1, j.len() - 1);
    assert(inner =~= json_body(vs));
    if vs.len() == 0 {
        assert(json_body(vs).len() == 0);
    } else {
        lemma_pieces_body(vs);
        lemma_trim_empty_iff_all_ws(inner);
        assert(!is_ws(inner[0]));
        lemma_kept_quoted(vs);
    }
}

} // verus!
