//! Styled text lines as the screens lay them out: each line is a run of
//! pieces, each piece a tone (which theme colour draws it) and its text.

use vstd::prelude::*;

verus! {

/// Which colour of the theme draws a piece of text.
#[derive(Debug, Clone, Copy, PartialEq, Eq, Structural)]
pub enum Tone {
    /// The terminal's own colour.
    Plain,
    Text,
    Accent,
    Dim,
    Muted,
    Error,
    Title,
    Header,
    /// A thread that needs a reply.
    NeedsReply,
    /// A thread waiting on the other side.
    Waiting,
    /// A thread of little value.
    LowValue,
    /// A count shown as a badge.
    Badge,
    /// The active choice of a rail.
    Active,
    /// The selected entry of a list.
    Selection,
    /// A draft's status.
    Status,
}

pub struct Piece {
    pub tone: Tone,
    pub text: String,
}

impl View for Piece {
    type V = (Tone, Seq<char>);

    open spec fn view(&self) -> (Tone, Seq<char>) {
        (self.tone, self.text@)
    }
}

pub struct ScreenLine {
    pub pieces: Vec<Piece>,
}

impl View for ScreenLine {
    type V = Seq<(Tone, Seq<char>)>;

    open spec fn view(&self) -> Seq<(Tone, Seq<char>)> {
        self.pieces@.map_values(|p: Piece| p@)
    }
}

pub open spec fn lines_view(v: Seq<ScreenLine>) -> Seq<Seq<(Tone, Seq<char>)>> {
    v.map_values(|l: ScreenLine| l@)
}

/// A line of one piece.
pub open spec fn one(tone: Tone, text: Seq<char>) -> Seq<(Tone, Seq<char>)> {
    seq![(tone, text)]
}

/// A line of one piece in the terminal's own colour.
pub open spec fn plain_spec(text: Seq<char>) -> Seq<(Tone, Seq<char>)> {
    one(Tone::Plain, text)
}

pub fn toned(tone: Tone, text: String) -> (r: ScreenLine)
    ensures
        r@ == one(tone, text@),
{
    let mut pieces: Vec<Piece> = Vec::new();
    pieces.push(Piece { tone, text });
    let r = ScreenLine { pieces };
    assert(r@ =~= one(tone, text@));
    r
}

pub fn plain(text: &str) -> (r: ScreenLine)
    ensures
        r@ == plain_spec(text@),
{
    toned(Tone::Plain, text.to_string())
}

/// A line made of the given pieces, in order.
pub fn line_of(pieces: Vec<Piece>) -> (r: ScreenLine)
    ensures
        r@ == pieces@.map_values(|p: Piece| p@),
{
    ScreenLine { pieces }
}

pub fn push_line(out: &mut Vec<ScreenLine>, line: ScreenLine)
    ensures
        lines_view(final(out)@) == lines_view(old(out)@).push(line@),
{
    out.push(line);
    assert(lines_view(out@) =~= lines_view(old(out)@).push(line@));
}

/// Lines of plain text, one for each string.
pub open spec fn plain_lines(texts: Seq<Seq<char>>) -> Seq<Seq<(Tone, Seq<char>)>> {
    texts.map_values(|t: Seq<char>| plain_spec(t))
}

pub fn plain_lines_of(texts: &Vec<String>) -> (r: Vec<ScreenLine>)
    ensures
        lines_view(r@) == plain_lines(crate::text::string_views(texts@)),
{
    let mut out: Vec<ScreenLine> = Vec::new();
    let mut i: usize = 0;
    while i < texts.len()
        invariant
            i <= texts@.len(),
            lines_view(out@) == plain_lines(crate::text::string_views(texts@.subrange(0, i as int))),
        decreases texts@.len() - i,
    {
        push_line(&mut out, plain(texts[i].as_str()));
        assert(texts@.subrange(0, i + 1) =~= texts@.subrange(0, i as int).push(texts@[i as int]));
        assert(crate::text::string_views(texts@.subrange(0, i + 1)) =~= crate::text::string_views(
            texts@.subrange(0, i as int),
        ).push(texts@[i as int]@));
        i = i + 1;
        assert(lines_view(out@) =~= plain_lines(crate::text::string_views(texts@.subrange(0, i as int))));
    }
    assert(texts@.subrange(0, i as int) =~= texts@);
    out
}

} // verus!
