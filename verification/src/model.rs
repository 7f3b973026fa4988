//! Parsed message model.

use vstd::prelude::*;

verus! {

#[derive(Debug, Clone, PartialEq, Eq)]
pub struct ParsedAddress {
    pub display_name: Option<String>,
    pub email: String,
}

#[derive(Debug, Clone, PartialEq, Eq)]
pub struct ParsedParticipant {
    pub role: String,
    pub display_name: Option<String>,
    pub email: String,
}

#[derive(Debug, Clone, PartialEq, Eq)]
pub struct ParsedMessage {
    pub file_path: String,
    pub message_id_header: Option<String>,
    pub in_reply_to: Option<String>,
    pub references: Vec<String>,
    pub subject: Option<String>,
    pub from: Option<ParsedAddress>,
    pub to: Vec<ParsedAddress>,
    pub cc: Vec<ParsedAddress>,
    pub sent_at: Option<String>,
    pub body_text: String,
    pub body_html: Option<String>,
    pub snippet: String,
    pub parse_hash: String,
    pub file_mtime: i64,
}

/// A participant with the given role and the address's name and email.
pub open spec fn participant_of(role: Seq<char>, a: ParsedAddress) -> (Seq<char>, Option<Seq<char>>, Seq<char>) {
    (role, match a.display_name {
        Some(n) => Some(n@),
        None => None,
    }, a.email@)
}

pub open spec fn participant_view(p: ParsedParticipant) -> (Seq<char>, Option<Seq<char>>, Seq<char>) {
    (p.role@, match p.display_name {
        Some(n) => Some(n@),
        None => None,
    }, p.email@)
}

/// The sender (role `from`), then the `to` recipients, then the `cc` ones.
pub open spec fn participants_spec(m: ParsedMessage) -> Seq<(Seq<char>, Option<Seq<char>>, Seq<char>)> {
    let from = match m.from {
        Some(a) => seq![participant_of("from"@, a)],
        None => Seq::empty(),
    };
    from + m.to@.map_values(|a: ParsedAddress| participant_of("to"@, a)) + m.cc@.map_values(
        |a: ParsedAddress| participant_of("cc"@, a),
    )
}

fn clone_opt(o: &Option<String>) -> (r: Option<String>)
    ensures
        r == *o,
{
    match o {
        Some(s) => Some(s.clone()),
        None => None,
    }
}

fn push_role(out: &mut Vec<ParsedParticipant>, role: &str, addrs: &Vec<ParsedAddress>)
    ensures
        final(out)@.map_values(|p: ParsedParticipant| participant_view(p)) == old(out)@.map_values(
            |p: ParsedParticipant| participant_view(p),
        ) + addrs@.map_values(|a: ParsedAddress| participant_of(role@, a)),
{
    let mut i: usize = 0;
    while i < addrs.len()
        invariant
            i <= addrs@.len(),
            out@.map_values(|p: ParsedParticipant| participant_view(p)) == old(out)@.map_values(
                |p: ParsedParticipant| participant_view(p),
            ) + addrs@.take(i as int).map_values(|a: ParsedAddress| participant_of(role@, a)),
        decreases addrs@.len() - i,
    {
        let a = &addrs[i];
        let p = ParsedParticipant {
            role: role.to_owned(),
            display_name: clone_opt(&a.display_name),
            email: a.email.clone(),
        };
        assert(participant_view(p) == participant_of(role@, addrs@[i as int]));
        let ghost before = out@;
        out.push(p);
        proof {
            assert(out@.map_values(|p: ParsedParticipant| participant_view(p)) =~= before.map_values(
                |p: ParsedParticipant| participant_view(p),
            ).push(participant_view(p)));
            assert(addrs@.take(i + 1).map_values(|a: ParsedAddress| participant_of(role@, a))
                =~= addrs@.take(i as int).map_values(|a: ParsedAddress| participant_of(role@, a)).push(
                participant_of(role@, addrs@[i as int]),
            ));
        }
        i = i + 1;
        assert(out@.map_values(|p: ParsedParticipant| participant_view(p)) =~= old(out)@.map_values(
            |p: ParsedParticipant| participant_view(p),
        ) + addrs@.take(i as int).map_values(|a: ParsedAddress| participant_of(role@, a)));
    }
    assert(addrs@.take(addrs@.len() as int) =~= addrs@);
}

impl ParsedMessage {
    /// Everyone on the message, each with a role: the sender as `from`, then
    /// the `to` and `cc` recipients in header order.
    pub fn participants(&self) -> (r: Vec<ParsedParticipant>)
        ensures
            r@.map_values(|p: ParsedParticipant| participant_view(p)) == participants_spec(*self),
    {
        let mut out: Vec<ParsedParticipant> = Vec::new();
        match &self.from {
            Some(from) => {
                out.push(
                    ParsedParticipant {
                        role: "from".to_string(),
                        display_name: clone_opt(&from.display_name),
                        email: from.email.clone(),
                    },
                );
            },
            None => {},
        }
        assert(out@.map_values(|p: ParsedParticipant| participant_view(p)) =~= match self.from {
            Some(a) => seq![participant_of("from"@, a)],
            None => Seq::empty(),
        });
        push_role(&mut out, "to", &self.to);
        push_role(&mut out, "cc", &self.cc);
        out
    }
}

} // verus!
