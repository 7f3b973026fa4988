//! Reading a message: the fields the index keeps, taken from the message
//! as `mail_parser` parses it.

use vstd::prelude::*;
use std::collections::hash_map::DefaultHasher;
use std::hash::Hasher;
use vstd::std_specs::hash::DefaultHasherAdditionalSpecFns;
use crate::error::AppError;
use crate::model::{ParsedAddress, ParsedMessage};
use crate::text::{chars_of, collapse_ws, is_ws, is_ws_char, string_views, take_chars, trim_ws};
use crate::threading::opt_view;

verus! {

#[verifier::external_type_specification]
#[verifier::external_body]
pub struct ExMessage<'x>(mail_parser::Message<'x>);

/// A parsed message together with the bytes it was parsed from.
pub struct MailDoc {
    raw: Vec<u8>,
    msg: mail_parser::Message<'static>,
}

impl View for MailDoc {
    type V = Seq<u8>;

    closed spec fn view(&self) -> Seq<u8> {
        self.raw@
    }
}

/// A header value as the message fields read it: one text, a list of
/// texts, or something else.
pub enum HeaderText {
    Text(String),
    TextList(Vec<String>),
    Other,
}

/// Tag 0 with the text, tag 1 with the list, tag 2 for anything else.
pub open spec fn header_text_view(h: HeaderText) -> (nat, Seq<Seq<char>>) {
    match h {
        HeaderText::Text(t) => (0, seq![t@]),
        HeaderText::TextList(v) => (1, string_views(v@)),
        HeaderText::Other => (2, Seq::empty()),
    }
}

/// An address of an address header: its display name and email, either
/// of which may be missing.
pub struct RawAddr {
    pub name: Option<String>,
    pub address: Option<String>,
}

pub type RawAddrView = (Option<Seq<char>>, Option<Seq<char>>);

pub open spec fn raw_addr_view(a: RawAddr) -> RawAddrView {
    (opt_view(a.name), opt_view(a.address))
}

/// The addresses of a header, group by group (a plain list is one group).
pub open spec fn groups_view(h: Option<Vec<Vec<RawAddr>>>) -> Option<Seq<Seq<RawAddrView>>> {
    match h {
        Some(gs) => Some(
            gs@.map_values(|g: Vec<RawAddr>| g@.map_values(|a: RawAddr| raw_addr_view(a))),
        ),
        None => None,
    }
}

/// The fields of a `Date` header.
#[derive(Clone, Copy)]
pub struct DateParts {
    pub year: u16,
    pub month: u8,
    pub day: u8,
    pub hour: u8,
    pub minute: u8,
    pub second: u8,
    pub tz_before_gmt: bool,
    pub tz_hour: u8,
    pub tz_minute: u8,
}

/// Whether `MessageParser::default().parse` accepts these bytes.
pub uninterp spec fn mail_parses(raw: Seq<u8>) -> bool;

/// `Message::subject` of the message parsed from these bytes.
pub uninterp spec fn mail_subject(raw: Seq<u8>) -> Option<Seq<char>>;

/// `Message::message_id` of the message parsed from these bytes.
pub uninterp spec fn mail_message_id(raw: Seq<u8>) -> Option<Seq<char>>;

/// `Message::in_reply_to`, as `header_text_view` tags it.
pub uninterp spec fn mail_in_reply_to(raw: Seq<u8>) -> (nat, Seq<Seq<char>>);

/// `Message::references`, as `header_text_view` tags it.
pub uninterp spec fn mail_references(raw: Seq<u8>) -> (nat, Seq<Seq<char>>);

/// `Message::from`, group by group.
pub uninterp spec fn mail_from(raw: Seq<u8>) -> Option<Seq<Seq<RawAddrView>>>;

/// `Message::to`, group by group.
pub uninterp spec fn mail_to(raw: Seq<u8>) -> Option<Seq<Seq<RawAddrView>>>;

/// `Message::cc`, group by group.
pub uninterp spec fn mail_cc(raw: Seq<u8>) -> Option<Seq<Seq<RawAddrView>>>;

/// `Message::date`: year, month, day, hour, minute, second, whether the
/// zone is west of GMT, zone hours and minutes.
pub uninterp spec fn mail_date(raw: Seq<u8>) -> Option<(u16, u8, u8, u8, u8, u8, bool, u8, u8)>;

/// `Message::body_text(0)`.
pub uninterp spec fn mail_body_text(raw: Seq<u8>) -> Option<Seq<char>>;

/// `Message::body_html(0)`.
pub uninterp spec fn mail_body_html(raw: Seq<u8>) -> Option<Seq<char>>;

/// The writes `<[u8] as Hash>::hash` makes into a hasher for these bytes.
pub uninterp spec fn slice_hash_writes(raw: Seq<u8>) -> Seq<Seq<u8>>;

/// `MessageParser::default().parse(raw)`, kept with a copy of `raw`.
/// Stated: it succeeds exactly when the named predicate holds of the bytes.
#[verifier::external_body]
fn parse_mail(raw: &[u8]) -> (r: Option<MailDoc>)
    ensures
        r.is_some() == mail_parses(raw@),
        r matches Some(d) ==> d@ == raw@,
{
    mail_parser::MessageParser::default().parse(raw).map(
        |m| MailDoc { raw: raw.to_vec(), msg: m.into_owned() },
    )
}

/// `Message::subject`, its text copied.
#[verifier::external_body]
fn subject_of(doc: &MailDoc) -> (r: Option<String>)
    ensures
        opt_view(r) == mail_subject(doc@),
{
    doc.msg.subject().map(|s| s.to_string())
}

/// `Message::message_id`, its text copied.
#[verifier::external_body]
fn message_id_of(doc: &MailDoc) -> (r: Option<String>)
    ensures
        opt_view(r) == mail_message_id(doc@),
{
    doc.msg.message_id().map(|s| s.to_string())
}

/// `Message::in_reply_to`, converted variant by variant.
#[verifier::external_body]
fn in_reply_to_of(doc: &MailDoc) -> (r: HeaderText)
    ensures
        header_text_view(r) == mail_in_reply_to(doc@),
{
    match doc.msg.in_reply_to() {
        mail_parser::HeaderValue::Text(t) => HeaderText::Text(t.to_string()),
        mail_parser::HeaderValue::TextList(l) => HeaderText::TextList(l.iter().map(|t| t.to_string()).collect()),
        _ => HeaderText::Other,
    }
}

/// `Message::references`, converted variant by variant.
#[verifier::external_body]
fn references_of(doc: &MailDoc) -> (r: HeaderText)
    ensures
        header_text_view(r) == mail_references(doc@),
{
    match doc.msg.references() {
        mail_parser::HeaderValue::Text(t) => HeaderText::Text(t.to_string()),
        mail_parser::HeaderValue::TextList(l) => HeaderText::TextList(l.iter().map(|t| t.to_string()).collect()),
        _ => HeaderText::Other,
    }
}

/// `Message::from`, converted group by group (a plain list is one group),
/// each address field by field.
#[verifier::external_body]
fn from_of(doc: &MailDoc) -> (r: Option<Vec<Vec<RawAddr>>>)
    ensures
        groups_view(r) == mail_from(doc@),
{
    let addr = |x: &mail_parser::Addr<'_>| RawAddr {
        name: x.name.as_ref().map(|n| n.to_string()),
        address: x.address.as_ref().map(|v| v.to_string()),
    };
    doc.msg.from().map(|a| match a {
        mail_parser::Address::List(l) => vec![l.iter().map(addr).collect()],
        mail_parser::Address::Group(g) => g.iter().map(|x| x.addresses.iter().map(addr).collect()).collect(),
    })
}

/// `Message::to`, converted as `from_of` converts.
#[verifier::external_body]
fn to_of(doc: &MailDoc) -> (r: Option<Vec<Vec<RawAddr>>>)
    ensures
        groups_view(r) == mail_to(doc@),
{
    let addr = |x: &mail_parser::Addr<'_>| RawAddr {
        name: x.name.as_ref().map(|n| n.to_string()),
        address: x.address.as_ref().map(|v| v.to_string()),
    };
    doc.msg.to().map(|a| match a {
        mail_parser::Address::List(l) => vec![l.iter().map(addr).collect()],
        mail_parser::Address::Group(g) => g.iter().map(|x| x.addresses.iter().map(addr).collect()).collect(),
    })
}

/// `Message::cc`, converted as `from_of` converts.
#[verifier::external_body]
fn cc_of(doc: &MailDoc) -> (r: Option<Vec<Vec<RawAddr>>>)
    ensures
        groups_view(r) == mail_cc(doc@),
{
    let addr = |x: &mail_parser::Addr<'_>| RawAddr {
        name: x.name.as_ref().map(|n| n.to_string()),
        address: x.address.as_ref().map(|v| v.to_string()),
    };
    doc.msg.cc().map(|a| match a {
        mail_parser::Address::List(l) => vec![l.iter().map(addr).collect()],
        mail_parser::Address::Group(g) => g.iter().map(|x| x.addresses.iter().map(addr).collect()).collect(),
    })
}

pub open spec fn date_view(d: DateParts) -> (u16, u8, u8, u8, u8, u8, bool, u8, u8) {
    (d.year, d.month, d.day, d.hour, d.minute, d.second, d.tz_before_gmt, d.tz_hour, d.tz_minute)
}

/// `Message::date`, its fields copied.
#[verifier::external_body]
fn date_of(doc: &MailDoc) -> (r: Option<DateParts>)
    ensures
        match r {
            Some(d) => mail_date(doc@) == Some(date_view(d)),
            None => mail_date(doc@) is None,
        },
{
    doc.msg.date().map(
        |d| DateParts {
            year: d.year,
            month: d.month,
            day: d.day,
            hour: d.hour,
            minute: d.minute,
            second: d.second,
            tz_before_gmt: d.tz_before_gmt,
            tz_hour: d.tz_hour,
            tz_minute: d.tz_minute,
        },
    )
}

/// `Message::body_text(0)`, copied.
#[verifier::external_body]
fn body_text_of(doc: &MailDoc) -> (r: Option<String>)
    ensures
        opt_view(r) == mail_body_text(doc@),
{
    doc.msg.body_text(0).map(|s| s.into_owned())
}

/// `Message::body_html(0)`, copied.
#[verifier::external_body]
fn body_html_of(doc: &MailDoc) -> (r: Option<String>)
    ensures
        opt_view(r) == mail_body_html(doc@),
{
    doc.msg.body_html(0).map(|s| s.into_owned())
}

/// `<[u8] as Hash>::hash(raw, hasher)`. Stated: the hasher has seen the
/// named writes for these bytes after what it saw before.
#[verifier::external_body]
fn hash_slice(raw: &[u8], hasher: &mut DefaultHasher)
    ensures
        final(hasher)@ == old(hasher)@ + slice_hash_writes(raw@),
{
    std::hash::Hash::hash(raw, hasher)
}


/// The trimmed text, when it is not blank.
pub open spec fn nonblank_trim(o: Option<Seq<char>>) -> Option<Seq<char>> {
    match o {
        Some(s) => if trim_ws(s).len() == 0 {
            None
        } else {
            Some(trim_ws(s))
        },
        None => None,
    }
}

/// The text trimmed of white space, when anything is left.
pub fn nonblank_trimmed(o: Option<String>) -> (r: Option<String>)
    ensures
        opt_view(r) == nonblank_trim(opt_view(o)),
{
    match o {
        Some(s) => {
            let t = crate::text::trim(s.as_str());
            if t.as_str().is_empty() {
                None
            } else {
                Some(t)
            }
        },
        None => None,
    }
}

/// Each text trimmed, the blank ones dropped.
pub open spec fn trimmed_nonblank(v: Seq<Seq<char>>) -> Seq<Seq<char>>
    decreases v.len(),
{
    if v.len() == 0 {
        Seq::empty()
    } else if trim_ws(v.last()).len() == 0 {
        trimmed_nonblank(v.drop_last())
    } else {
        trimmed_nonblank(v.drop_last()).push(trim_ws(v.last()))
    }
}

/// Each text trimmed of white space, blank ones left out, in order.
pub fn trim_all_nonblank(v: &Vec<String>) -> (r: Vec<String>)
    ensures
        string_views(r@) == trimmed_nonblank(string_views(v@)),
{
    let mut out: Vec<String> = Vec::new();
    let mut i: usize = 0;
    while i < v.len()
        invariant
            i <= v@.len(),
            string_views(out@) == trimmed_nonblank(string_views(v@.take(i as int))),
        decreases v@.len() - i,
    {
        proof {
            assert(string_views(v@.take(i + 1)).drop_last() =~= string_views(v@.take(i as int)));
            assert(string_views(v@.take(i + 1)).last() == v@[i as int]@);
        }
        let t = crate::text::trim(v[i].as_str());
        if !t.as_str().is_empty() {
            out.push(t);
        }
        assert(string_views(out@) =~= trimmed_nonblank(string_views(v@.take(i + 1))));
        i = i + 1;
    }
    assert(v@.take(v@.len() as int) =~= v@);
    out
}

/// The words of `s` (maximal runs of non-whitespace), as `split_whitespace`
/// gives them; the flag says whether `s` ends inside a word.
pub open spec fn words_state(s: Seq<char>) -> (Seq<Seq<char>>, bool)
    decreases s.len(),
{
    if s.len() == 0 {
        (Seq::empty(), false)
    } else {
        let p = words_state(s.drop_last());
        let c = s.last();
        if is_ws(c) {
            (p.0, false)
        } else if p.1 && p.0.len() > 0 {
            (p.0.update(p.0.len() - 1, p.0.last().push(c)), true)
        } else {
            (p.0.push(seq![c]), true)
        }
    }
}

pub open spec fn words(s: Seq<char>) -> Seq<Seq<char>> {
    words_state(s).0
}

/// The words of a text: its runs of non-white-space characters.
pub fn split_words(s: &str) -> (r: Vec<String>)
    ensures
        string_views(r@) == words(s@),
{
    let v = chars_of(s);
    let mut ws: Vec<Vec<char>> = Vec::new();
    let mut in_word = false;
    let mut i: usize = 0;
    while i < v.len()
        invariant
            i <= v@.len(),
            v@ == s@,
            (ws@.map_values(|w: Vec<char>| w@), in_word) == words_state(v@.take(i as int)),
        decreases v@.len() - i,
    {
        let c = v[i];
        proof {
            assert(v@.take(i + 1).drop_last() =~= v@.take(i as int));
        }
        if is_ws_char(c) {
            in_word = false;
        } else if in_word && ws.len() > 0 {
            let mut last = ws.pop().unwrap();
            last.push(c);
            ws.push(last);
            assert(ws@.map_values(|w: Vec<char>| w@) =~= words_state(v@.take(i + 1)).0);
        } else {
            let mut w: Vec<char> = Vec::new();
            w.push(c);
            ws.push(w);
            in_word = true;
            assert(ws@.map_values(|w: Vec<char>| w@) =~= words_state(v@.take(i + 1)).0);
        }
        i = i + 1;
    }
    assert(v@.take(v@.len() as int) =~= v@);
    let mut out: Vec<String> = Vec::new();
    let mut k: usize = 0;
    while k < ws.len()
        invariant
            k <= ws@.len(),
            string_views(out@) == ws@.map_values(|w: Vec<char>| w@).take(k as int),
        decreases ws@.len() - k,
    {
        assert(ws@.map_values(|w: Vec<char>| w@)[k as int] == ws@[k as int]@);
        let w = crate::text::string_from(ws[k].as_slice());
        assert(w@ == ws@[k as int]@);
        let ghost before = out@;
        out.push(w);
        assert(string_views(out@) =~= string_views(before).push(w@));
        k = k + 1;
        assert(string_views(out@) =~= ws@.map_values(|w: Vec<char>| w@).take(k as int));
    }
    assert(ws@.map_values(|w: Vec<char>| w@).take(ws@.len() as int) =~= ws@.map_values(
        |w: Vec<char>| w@,
    ));
    out
}

/// The one text a reply header names: the trimmed text, or the first
/// non-blank entry of a list, trimmed.
pub open spec fn single_text_spec(h: (nat, Seq<Seq<char>>)) -> Option<Seq<char>> {
    if h.0 == 0 {
        nonblank_trim(Some(h.1[0]))
    } else if h.0 == 1 {
        if trimmed_nonblank(h.1).len() > 0 {
            Some(trimmed_nonblank(h.1)[0])
        } else {
            None
        }
    } else {
        None
    }
}

/// The one text a reply header gives: a text trimmed, or the first
/// non-blank text of a list; nothing for anything else.
pub fn header_value_as_single_text(h: HeaderText) -> (r: Option<String>)
    ensures
        opt_view(r) == single_text_spec(header_text_view(h)),
{
    match h {
        HeaderText::Text(t) => nonblank_trimmed(Some(t)),
        HeaderText::TextList(v) => {
            let t = trim_all_nonblank(&v);
            if t.len() > 0 {
                Some(t[0].clone())
            } else {
                None
            }
        },
        HeaderText::Other => None,
    }
}

/// The texts a references header names: a list's entries, or a text's
/// words, trimmed, blanks dropped.
pub open spec fn text_list_spec(h: (nat, Seq<Seq<char>>)) -> Seq<Seq<char>> {
    if h.0 == 0 {
        trimmed_nonblank(words(h.1[0]))
    } else if h.0 == 1 {
        trimmed_nonblank(h.1)
    } else {
        Seq::empty()
    }
}

/// The texts a references header gives: the words of a text, or the
/// non-blank texts of a list, trimmed; nothing for anything else.
pub fn header_value_as_text_list(h: HeaderText) -> (r: Vec<String>)
    ensures
        string_views(r@) == text_list_spec(header_text_view(h)),
{
    match h {
        HeaderText::Text(t) => trim_all_nonblank(&split_words(t.as_str())),
        HeaderText::TextList(v) => trim_all_nonblank(&v),
        HeaderText::Other => Vec::new(),
    }
}

pub type AddressView = (Option<Seq<char>>, Seq<char>);

pub open spec fn address_view(a: ParsedAddress) -> AddressView {
    (opt_view(a.display_name), a.email@)
}

/// The groups' addresses one after another.
pub open spec fn flatten(gs: Seq<Seq<RawAddrView>>) -> Seq<RawAddrView>
    decreases gs.len(),
{
    if gs.len() == 0 {
        Seq::empty()
    } else {
        flatten(gs.drop_last()) + gs.last()
    }
}

/// The addresses that have an email, each with its display name trimmed
/// (none when blank).
pub open spec fn with_email(v: Seq<RawAddrView>) -> Seq<AddressView>
    decreases v.len(),
{
    if v.len() == 0 {
        Seq::empty()
    } else {
        let a = v.last();
        match a.1 {
            Some(email) => with_email(v.drop_last()).push((nonblank_trim(a.0), email)),
            None => with_email(v.drop_last()),
        }
    }
}

pub open spec fn addresses_spec(h: Option<Seq<Seq<RawAddrView>>>) -> Seq<AddressView> {
    match h {
        Some(gs) => with_email(flatten(gs)),
        None => Seq::empty(),
    }
}

/// The addresses of an address header, group after group, that have an
/// email: the display name trimmed (none when blank), the email as given.
pub fn parse_addresses(h: Option<Vec<Vec<RawAddr>>>) -> (r: Vec<ParsedAddress>)
    ensures
        r@.map_values(|a: ParsedAddress| address_view(a)) == addresses_spec(groups_view(h)),
{
    let mut out: Vec<ParsedAddress> = Vec::new();
    let groups = match h {
        Some(g) => g,
        None => {
            assert(out@.map_values(|a: ParsedAddress| address_view(a)) =~= Seq::<AddressView>::empty());
            return out;
        },
    };
    let ghost gs = groups@.map_values(|g: Vec<RawAddr>| g@.map_values(|a: RawAddr| raw_addr_view(a)));
    let mut i: usize = 0;
    while i < groups.len()
        invariant
            i <= groups@.len(),
            gs == groups@.map_values(|g: Vec<RawAddr>| g@.map_values(|a: RawAddr| raw_addr_view(a))),
            out@.map_values(|a: ParsedAddress| address_view(a)) == with_email(flatten(gs.take(i as int))),
        decreases groups@.len() - i,
    {
        let g = &groups[i];
        let ghost gv = gs[i as int];
        assert(gv == g@.map_values(|a: RawAddr| raw_addr_view(a)));
        let mut j: usize = 0;
        assert(gv.take(0) =~= Seq::<RawAddrView>::empty());
        assert(flatten(gs.take(i as int)) + gv.take(0) =~= flatten(gs.take(i as int)));
        while j < g.len()
            invariant
                j <= g@.len(),
                gv == g@.map_values(|a: RawAddr| raw_addr_view(a)),
                out@.map_values(|a: ParsedAddress| address_view(a)) == with_email(
                    flatten(gs.take(i as int)) + gv.take(j as int),
                ),
            decreases g@.len() - j,
        {
            let a = &g[j];
            proof {
                let x = flatten(gs.take(i as int)) + gv.take(j + 1);
                assert(x.drop_last() =~= flatten(gs.take(i as int)) + gv.take(j as int));
                assert(x.last() == raw_addr_view(*a));
            }
            match &a.address {
                Some(email) => {
                    let name = match &a.name {
                        Some(n) => nonblank_trimmed(Some(n.clone())),
                        None => None,
                    };
                    out.push(ParsedAddress { display_name: name, email: email.clone() });
                },
                None => {},
            }
            assert(out@.map_values(|a: ParsedAddress| address_view(a)) =~= with_email(
                flatten(gs.take(i as int)) + gv.take(j + 1),
            ));
            j = j + 1;
        }
        proof {
            assert(gv.take(g@.len() as int) =~= gv);
            assert(gs.take(i + 1).drop_last() =~= gs.take(i as int));
            assert(gs.take(i + 1).last() == gv);
        }
        i = i + 1;
    }
    assert(gs.take(groups@.len() as int) =~= gs);
    out
}

fn copy_opt(o: &Option<String>) -> (r: Option<String>)
    ensures
        opt_view(r) == opt_view(*o),
{
    match o {
        Some(s) => Some(s.clone()),
        None => None,
    }
}

/// The preview of a body: the text body's words (or, when it is blank, the
/// HTML body's) joined by single spaces, cut to 160 characters.
pub open spec fn snippet_spec(body_text: Seq<char>, body_html: Option<Seq<char>>) -> Seq<char> {
    let source = if trim_ws(body_text).len() == 0 {
        match body_html {
            Some(h) => h,
            None => Seq::empty(),
        }
    } else {
        body_text
    };
    take_chars(collapse_ws(source), 160)
}

pub fn make_snippet(body_text: &str, body_html: Option<&str>) -> (r: String)
    ensures
        r@ == snippet_spec(body_text@, match body_html {
            Some(h) => Some(h@),
            None => None,
        }),
{
    let source: &str = if crate::text::is_blank(body_text) {
        match body_html {
            Some(h) => h,
            None => "",
        }
    } else {
        body_text
    };
    proof {
        reveal_strlit("");
    }
    let collapsed = crate::text::collapse_whitespace(source);
    crate::text::take_prefix(collapsed.as_str(), 160)
}

/// `n` in decimal, zero-padded on the left to `w` digits.
pub open spec fn padded(n: nat, w: nat) -> Seq<char> {
    let d = crate::text::decimal(n);
    if d.len() < w {
        Seq::new((w - d.len()) as nat, |i: int| '0') + d
    } else {
        d
    }
}

fn push_padded(out: &mut String, n: u64, w: usize)
    ensures
        final(out)@ == old(out)@ + padded(n as nat, w as nat),
{
    let mut digits = String::new();
    crate::text::push_decimal(&mut digits, n);
    let len = chars_of(digits.as_str()).len();
    let ghost start = out@;
    if len < w {
        let mut k: usize = len;
        while k < w
            invariant
                len <= k <= w,
                out@ == start + Seq::new((k - len) as nat, |i: int| '0'),
            decreases w - k,
        {
            out.push('0');
            k = k + 1;
            assert(out@ =~= start + Seq::new((k - len) as nat, |i: int| '0'));
        }
    }
    crate::text::push_str(out, digits.as_str());
    assert(out@ =~= start + padded(n as nat, w as nat));
}

/// `DateTime::to_rfc3339`: `YYYY-MM-DDTHH:MM:SS` then `Z` for a zero
/// offset, else the signed offset `±HH:MM` (`-` only west of GMT).
pub open spec fn rfc3339_spec(d: (u16, u8, u8, u8, u8, u8, bool, u8, u8)) -> Seq<char> {
    let base = padded(d.0 as nat, 4) + "-"@ + padded(d.1 as nat, 2) + "-"@ + padded(d.2 as nat, 2)
        + "T"@ + padded(d.3 as nat, 2) + ":"@ + padded(d.4 as nat, 2) + ":"@ + padded(
        d.5 as nat,
        2,
    );
    if d.7 != 0 || d.8 != 0 {
        base + (if d.6 && (d.7 > 0 || d.8 > 0) {
            "-"@
        } else {
            "+"@
        }) + padded(d.7 as nat, 2) + ":"@ + padded(d.8 as nat, 2)
    } else {
        base + "Z"@
    }
}

pub fn to_rfc3339(d: &DateParts) -> (r: String)
    ensures
        r@ == rfc3339_spec(date_view(*d)),
{
    let mut out = String::new();
    push_padded(&mut out, d.year as u64, 4);
    crate::text::push_str(&mut out, "-");
    push_padded(&mut out, d.month as u64, 2);
    crate::text::push_str(&mut out, "-");
    push_padded(&mut out, d.day as u64, 2);
    crate::text::push_str(&mut out, "T");
    push_padded(&mut out, d.hour as u64, 2);
    crate::text::push_str(&mut out, ":");
    push_padded(&mut out, d.minute as u64, 2);
    crate::text::push_str(&mut out, ":");
    push_padded(&mut out, d.second as u64, 2);
    if d.tz_hour != 0 || d.tz_minute != 0 {
        if d.tz_before_gmt && (d.tz_hour > 0 || d.tz_minute > 0) {
            crate::text::push_str(&mut out, "-");
        } else {
            crate::text::push_str(&mut out, "+");
        }
        push_padded(&mut out, d.tz_hour as u64, 2);
        crate::text::push_str(&mut out, ":");
        push_padded(&mut out, d.tz_minute as u64, 2);
    } else {
        crate::text::push_str(&mut out, "Z");
    }
    out
}

pub open spec fn hex_char(d: u64) -> char {
    if d < 10 {
        (('0' as u64) + d) as char
    } else {
        (('a' as u64) + d - 10) as char
    }
}

/// `format!("{:016x}", v)`: sixteen lower-case hex digits, most significant
/// first.
pub open spec fn hex16(v: u64) -> Seq<char> {
    Seq::new(16, |i: int| hex_char((v >> ((60 - 4 * i) as u64)) & 15u64))
}

pub fn format_hex16(v: u64) -> (r: String)
    ensures
        r@ == hex16(v),
{
    let mut out = String::new();
    let mut i: u64 = 0;
    while i < 16
        invariant
            i <= 16,
            out@ == hex16(v).take(i as int),
        decreases 16 - i,
    {
        let shift: u64 = 60 - 4 * i;
        let d: u64 = (v >> shift) & 15u64;
        assert(d < 16) by (bit_vector)
            requires
                d == (v >> shift) & 15u64,
        ;
        let c: char = if d < 10 {
            ((48u8 + d as u8) as char)
        } else {
            ((97u8 + (d as u8 - 10)) as char)
        };
        assert(c == hex_char(d));
        out.push(c);
        i = i + 1;
        assert(out@ =~= hex16(v).take(i as int));
    }
    assert(hex16(v).take(16) =~= hex16(v));
    out
}

/// The hash recorded for a message file: `DefaultHasher` fed the bytes as
/// `<[u8] as Hash>` feeds them, in sixteen hex digits.
pub open spec fn parse_hash_spec(raw: Seq<u8>) -> Seq<char> {
    hex16(DefaultHasher::spec_finish(slice_hash_writes(raw)))
}

pub fn compute_parse_hash(raw: &[u8]) -> (r: String)
    ensures
        r@ == parse_hash_spec(raw@),
{
    let mut hasher = DefaultHasher::new();
    hash_slice(raw, &mut hasher);
    assert(hasher@ =~= slice_hash_writes(raw@));
    format_hex16(hasher.finish())
}

/// The message read from `raw`: the trimmed non-blank subject and
/// message id, the reply header's one text, the references' texts, the
/// sender (first address with an email), recipients and copies, the date as
/// RFC 3339, the text body (empty when none), the HTML body, the preview,
/// the hash of the bytes and the given path and modification time.
pub open spec fn parsed_fields_ok(m: ParsedMessage, path: Seq<char>, raw: Seq<u8>, mtime: i64) -> bool {
    let body_text = match mail_body_text(raw) {
        Some(t) => t,
        None => Seq::empty(),
    };
    let from = addresses_spec(mail_from(raw));
    &&& m.file_path@ == path
    &&& opt_view(m.message_id_header) == nonblank_trim(mail_message_id(raw))
    &&& opt_view(m.in_reply_to) == single_text_spec(mail_in_reply_to(raw))
    &&& string_views(m.references@) == text_list_spec(mail_references(raw))
    &&& opt_view(m.subject) == nonblank_trim(mail_subject(raw))
    &&& (match m.from {
        Some(a) => from.len() > 0 && address_view(a) == from[0],
        None => from.len() == 0,
    })
    &&& m.to@.map_values(|a: ParsedAddress| address_view(a)) == addresses_spec(mail_to(raw))
    &&& m.cc@.map_values(|a: ParsedAddress| address_view(a)) == addresses_spec(mail_cc(raw))
    &&& opt_view(m.sent_at) == (match mail_date(raw) {
        Some(d) => Some(rfc3339_spec(d)),
        None => None,
    })
    &&& m.body_text@ == body_text
    &&& opt_view(m.body_html) == mail_body_html(raw)
    &&& m.snippet@ == snippet_spec(body_text, mail_body_html(raw))
    &&& m.parse_hash@ == parse_hash_spec(raw)
    &&& m.file_mtime == mtime
}

/// Reads a message from its bytes. Fails exactly when the parser rejects
/// them, with `failed to parse message <path>`.
pub fn parse_message_bytes(file_path: String, raw: &[u8], file_mtime: i64) -> (r: Result<ParsedMessage, AppError>)
    ensures
        match r {
            Ok(m) => mail_parses(raw@) && parsed_fields_ok(m, file_path@, raw@, file_mtime),
            Err(e) => !mail_parses(raw@) && (match e {
                AppError::Parsing(msg) => msg@ == crate::error::parse_failure_message(file_path@),
                _ => false,
            }),
        },
{
    let doc = match parse_mail(raw) {
        Some(d) => d,
        None => {
            let mut msg = "failed to parse message ".to_string();
            crate::text::push_str(&mut msg, file_path.as_str());
            return Err(AppError::Parsing(msg));
        },
    };
    let subject = nonblank_trimmed(subject_of(&doc));
    let from_all = parse_addresses(from_of(&doc));
    let from = if from_all.len() > 0 {
        let a = &from_all[0];
        assert(address_view(*a) == from_all@.map_values(|a: ParsedAddress| address_view(a))[0]);
        Some(ParsedAddress { display_name: copy_opt(&a.display_name), email: a.email.clone() })
    } else {
        None
    };
    let to = parse_addresses(to_of(&doc));
    let cc = parse_addresses(cc_of(&doc));
    let body_text = match body_text_of(&doc) {
        Some(t) => t,
        None => String::new(),
    };
    let body_html = body_html_of(&doc);
    let snippet = match &body_html {
        Some(h) => make_snippet(body_text.as_str(), Some(h.as_str())),
        None => make_snippet(body_text.as_str(), None),
    };
    let sent_at = match date_of(&doc) {
        Some(d) => Some(to_rfc3339(&d)),
        None => None,
    };
    let m = ParsedMessage {
        file_path,
        message_id_header: nonblank_trimmed(message_id_of(&doc)),
        in_reply_to: header_value_as_single_text(in_reply_to_of(&doc)),
        references: header_value_as_text_list(references_of(&doc)),
        subject,
        from,
        to,
        cc,
        sent_at,
        body_text,
        body_html,
        snippet,
        parse_hash: compute_parse_hash(raw),
        file_mtime,
    };
    Ok(m)
}

} // verus!
