//! The text and endpoint of an embedding request to Ollama.

use vstd::prelude::*;
use crate::config::ProviderConfig;
use crate::error::AppError;
use crate::text::{ends_with, trim_end_ch, trim_ws};

verus! {

/// The path of Ollama's embeddings API.
pub open spec fn embeddings_path() -> Seq<char> {
    "/api/embeddings"@
}

/// The embeddings endpoint for a configured URL: trailing slashes removed,
/// and the embeddings path appended unless it is already there.
pub open spec fn normalize_url_spec(api_url: Seq<char>) -> Seq<char> {
    let t = trim_end_ch(api_url, '/');
    if ends_with(t, embeddings_path()) {
        t
    } else {
        t + embeddings_path()
    }
}

pub fn normalize_api_url(api_url: &str) -> (r: String)
    ensures
        r@ == normalize_url_spec(api_url@),
{
    let v = crate::text::chars_of(api_url);
    let mut j: usize = v.len();
    while j > 0 && v[j - 1] == '/'
        invariant
            j <= v@.len(),
            v@ == api_url@,
            forall|k: int| j <= k < v@.len() ==> #[trigger] v@[k] == '/',
        decreases j,
    {
        j = j - 1;
    }
    proof {
        crate::text::lemma_trim_end_ch_take(v@, '/', j as int);
        if j > 0 {
            assert(v@.take(j as int).last() != '/');
        } else {
            assert(v@.take(0) =~= Seq::<char>::empty());
        }
    }
    let t = crate::text::string_from(crate::text::slice_range(v.as_slice(), 0, j).as_slice());
    assert(t@ =~= v@.take(j as int));
    if crate::text::ends_with_str(t.as_str(), "/api/embeddings") {
        t
    } else {
        let mut out = t;
        crate::text::push_str(&mut out, "/api/embeddings");
        out
    }
}

/// The embeddings endpoint of a provider, or an error when it has no URL.
pub fn embedding_api_url(provider: &ProviderConfig) -> (r: Result<String, AppError>)
    ensures
        match provider.api_url {
            Some(u) => r matches Ok(s) && s@ == normalize_url_spec(u@),
            None => r matches Err(AppError::Ai(m)) && m@ == "missing Ollama api_url"@,
        },
{
    match &provider.api_url {
        Some(u) => Ok(normalize_api_url(u.as_str())),
        None => Err(AppError::Ai("missing Ollama api_url".to_string())),
    }
}

/// The text embedded for a message: `Subject: <subject>` and a blank line
/// before the body when the subject is not blank, both trimmed.
pub open spec fn embedding_input_spec(subject: Option<Seq<char>>, body: Seq<char>) -> Seq<char> {
    match subject {
        Some(s) => if trim_ws(s).len() > 0 {
            "Subject: "@ + trim_ws(s) + "\n\n"@ + trim_ws(body)
        } else {
            trim_ws(body)
        },
        None => trim_ws(body),
    }
}

pub fn build_embedding_input(subject: Option<&str>, body_text: &str) -> (r: String)
    ensures
        r@ == embedding_input_spec(
            match subject {
                Some(s) => Some(s@),
                None => None,
            },
            body_text@,
        ),
{
    match subject {
        Some(s) => {
            if !crate::text::is_blank(s) {
                let mut out = "Subject: ".to_string();
                crate::text::push_str(&mut out, crate::text::trim(s).as_str());
                crate::text::push_str(&mut out, "\n\n");
                crate::text::push_str(&mut out, crate::text::trim(body_text).as_str());
                out
            } else {
                crate::text::trim(body_text)
            }
        },
        None => crate::text::trim(body_text),
    }
}

/// An embedding is usable when it has at least one component.
pub fn check_embedding_len(len: usize) -> (r: Result<(), AppError>)
    ensures
        len > 0 ==> r is Ok,
        len == 0 ==> (r matches Err(AppError::Ai(m)) && m@ == "Ollama returned an empty embedding"@),
{
    if len == 0 {
        Err(AppError::Ai("Ollama returned an empty embedding".to_string()))
    } else {
        Ok(())
    }
}

proof fn lemma_trim_end_unchanged(s: Seq<char>, ch: char)
    requires
        s.len() == 0 || s.last() != ch,
    ensures
        trim_end_ch(s, ch) == s,
{
}

/// Normalising an endpoint that is already normalised leaves it unchanged.
pub proof fn law_normalize_url_idempotent(api_url: Seq<char>)
    ensures
        normalize_url_spec(normalize_url_spec(api_url)) == normalize_url_spec(api_url),
        ends_with(normalize_url_spec(api_url), embeddings_path()),
{
    let t = trim_end_ch(api_url, '/');
    let p = embeddings_path();
    reveal_strlit("/api/embeddings");
    if ends_with(t, p) {
        assert(t.last() == 's') by {
            assert(t.skip(t.len() - p.len()) == p);
            assert(t[t.len() - 1] == t.skip(t.len() - p.len())[p.len() - 1]);
        }
        lemma_trim_end_unchanged(t, '/');
    } else {
        let n = t + p;
        assert(n.last() == 's');
        lemma_trim_end_unchanged(n, '/');
        assert(n.skip(n.len() - p.len()) =~= p);
    }
}

} // verus!
