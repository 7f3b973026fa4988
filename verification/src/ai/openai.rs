//! Requests to an OpenAI-compatible chat endpoint.

use vstd::prelude::*;
use crate::ai::extract::{
    message_input_view, DraftGeneratorInput, ExtractMessageInput, ExtractorInput, MessageInputView,
};
use crate::config::ProviderConfig;
use crate::error::AppError;
use crate::text::{debug_quoted, join_spec, join_strings, push_str, str_debug, string_views};
use crate::threading::opt_view;

verus! {

#[derive(Debug, Clone, PartialEq, Eq)]
pub struct ChatMessage {
    pub role: String,
    pub content: String,
}

#[derive(Debug, Clone, PartialEq, Eq)]
pub struct ResponseFormat {
    pub format_type: String,
}

/// A chat completion request: the model, the messages and the answer
/// format asked for.
#[derive(Debug, Clone, PartialEq, Eq)]
pub struct ChatRequest {
    pub model: String,
    pub messages: Vec<ChatMessage>,
    pub response_format: Option<ResponseFormat>,
}

/// The endpoint of a chat provider: its configured URL, or an error when
/// none is configured.
pub fn chat_api_url(provider: &ProviderConfig) -> (r: Result<String, AppError>)
    ensures
        match provider.api_url {
            Some(u) => r matches Ok(s) && s@ == u@,
            None => r matches Err(AppError::Ai(m)) && m@ == "missing OpenAI-compatible api_url"@,
        },
{
    match &provider.api_url {
        Some(u) => Ok(u.clone()),
        None => Err(AppError::Ai("missing OpenAI-compatible api_url".to_string())),
    }
}

/// A one-message user request for a JSON object answer.
pub fn json_chat_request(model: &str, content: String) -> (r: ChatRequest)
    ensures
        r.model@ == model@,
        r.messages@.len() == 1,
        r.messages@[0].role@ == "user"@,
        r.messages@[0].content@ == content@,
        r.response_format matches Some(f) && f.format_type@ == "json_object"@,
{
    let mut messages: Vec<ChatMessage> = Vec::new();
    messages.push(ChatMessage { role: "user".to_string(), content });
    ChatRequest {
        model: model.to_string(),
        messages,
        response_format: Some(ResponseFormat { format_type: "json_object".to_string() }),
    }
}

/// `format!("{:?}", o)` for an optional string.
pub open spec fn opt_debug(o: Option<Seq<char>>) -> Seq<char> {
    match o {
        Some(s) => "Some("@ + str_debug(s) + ")"@,
        None => "None"@,
    }
}

/// `format!("{:?}", m)` for a message as its derived `Debug` writes it.
pub open spec fn message_debug(m: MessageInputView) -> Seq<char> {
    "ExtractMessageInput { from_email: "@ + opt_debug(m.0) + ", subject: "@ + opt_debug(m.1)
        + ", body_text: "@ + str_debug(m.2) + " }"@
}

/// `format!("{:?}", ms)` for a list of messages.
pub open spec fn messages_debug(ms: Seq<MessageInputView>) -> Seq<char> {
    "["@ + join_spec(ms.map_values(|m: MessageInputView| message_debug(m)), ", "@) + "]"@
}

fn opt_debug_text(o: &Option<String>) -> (r: String)
    ensures
        r@ == opt_debug(opt_view(*o)),
{
    match o {
        Some(s) => {
            let mut t = "Some(".to_string();
            push_str(&mut t, debug_quoted(s.as_str()).as_str());
            push_str(&mut t, ")");
            t
        },
        None => "None".to_string(),
    }
}

fn messages_debug_text(ms: &Vec<ExtractMessageInput>) -> (r: String)
    ensures
        r@ == messages_debug(ms@.map_values(|m: ExtractMessageInput| message_input_view(m))),
{
    let ghost mv = ms@.map_values(|m: ExtractMessageInput| message_input_view(m));
    let mut parts: Vec<String> = Vec::new();
    let mut i: usize = 0;
    while i < ms.len()
        invariant
            i <= ms@.len(),
            mv == ms@.map_values(|m: ExtractMessageInput| message_input_view(m)),
            string_views(parts@) == mv.take(i as int).map_values(|m: MessageInputView| message_debug(m)),
        decreases ms@.len() - i,
    {
        let m = &ms[i];
        let mut t = "ExtractMessageInput { from_email: ".to_string();
        push_str(&mut t, opt_debug_text(&m.from_email).as_str());
        push_str(&mut t, ", subject: ");
        push_str(&mut t, opt_debug_text(&m.subject).as_str());
        push_str(&mut t, ", body_text: ");
        push_str(&mut t, debug_quoted(m.body_text.as_str()).as_str());
        push_str(&mut t, " }");
        assert(mv[i as int] == message_input_view(*m));
        assert(t@ == message_debug(mv[i as int]));
        let ghost before = parts@;
        parts.push(t);
        assert(string_views(parts@) =~= string_views(before).push(t@));
        assert(mv.take(i + 1) =~= mv.take(i as int).push(mv[i as int]));
        i = i + 1;
        assert(string_views(parts@) =~= mv.take(i as int).map_values(|m: MessageInputView| message_debug(m)));
    }
    assert(mv.take(i as int) =~= mv);
    let mut out = "[".to_string();
    push_str(&mut out, join_strings(&parts, ", ").as_str());
    push_str(&mut out, "]");
    out
}

/// The prompt asking for the structured extraction of a thread.
pub open spec fn extraction_prompt_spec(input: ExtractorInput) -> Seq<char> {
    "Extract structured JSON from this thread. Subject: "@ + opt_debug(opt_view(input.subject))
        + ". Messages: "@ + messages_debug(
        input.messages@.map_values(|m: ExtractMessageInput| message_input_view(m)),
    )
}

/// The prompt asking for a reply draft.
pub open spec fn draft_prompt_spec(input: DraftGeneratorInput) -> Seq<char> {
    "Draft a reply. Subject: "@ + opt_debug(opt_view(input.subject)) + ". Latest ask: "@
        + opt_debug(opt_view(input.latest_ask)) + ". Messages: "@ + messages_debug(
        input.messages@.map_values(|m: ExtractMessageInput| message_input_view(m)),
    ) + ". Tone: "@ + opt_debug(opt_view(input.tone_hint))
}

/// The request asking `model` for the structured extraction of `input`.
pub fn build_extraction_request(model: &str, input: &ExtractorInput) -> (r: ChatRequest)
    ensures
        r.model@ == model@,
        r.messages@.len() == 1,
        r.messages@[0].role@ == "user"@,
        r.messages@[0].content@ == extraction_prompt_spec(*input),
        r.response_format matches Some(f) && f.format_type@ == "json_object"@,
{
    let mut content = "Extract structured JSON from this thread. Subject: ".to_string();
    push_str(&mut content, opt_debug_text(&input.subject).as_str());
    push_str(&mut content, ". Messages: ");
    push_str(&mut content, messages_debug_text(&input.messages).as_str());
    json_chat_request(model, content)
}

/// The request asking `model` for a reply draft for `input`.
pub fn build_draft_request(model: &str, input: &DraftGeneratorInput) -> (r: ChatRequest)
    ensures
        r.model@ == model@,
        r.messages@.len() == 1,
        r.messages@[0].role@ == "user"@,
        r.messages@[0].content@ == draft_prompt_spec(*input),
        r.response_format matches Some(f) && f.format_type@ == "json_object"@,
{
    let mut content = "Draft a reply. Subject: ".to_string();
    push_str(&mut content, opt_debug_text(&input.subject).as_str());
    push_str(&mut content, ". Latest ask: ");
    push_str(&mut content, opt_debug_text(&input.latest_ask).as_str());
    push_str(&mut content, ". Messages: ");
    push_str(&mut content, messages_debug_text(&input.messages).as_str());
    push_str(&mut content, ". Tone: ");
    push_str(&mut content, opt_debug_text(&input.tone_hint).as_str());
    json_chat_request(model, content)
}

} // verus!
