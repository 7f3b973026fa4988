use cour::error::AppError;
use cour::model::ParsedAddress;
use cour::parse::{
    compute_parse_hash, header_value_as_single_text, header_value_as_text_list, make_snippet,
    nonblank_trimmed, parse_addresses, parse_message_bytes, split_words, trim_all_nonblank,
    HeaderText, RawAddr,
};

const HTML_ONLY: &str = "From: Alice <alice@example.com>\nTo: Bob <bob@example.com>\nSubject: Hello\nMessage-ID: <msg-1@example.com>\nDate: Tue, 11 Mar 2026 10:00:00 +0000\nContent-Type: text/html; charset=UTF-8\n\n<p>Hello <b>Bob</b></p>";

#[test]
fn parses_html_only_message() {
    let parsed = parse_message_bytes("/tmp/m1.eml".to_string(), HTML_ONLY.as_bytes(), 7)
        .expect("parse html-only message");
    assert_eq!(parsed.subject.as_deref(), Some("Hello"));
    assert_eq!(parsed.from.as_ref().map(|a| a.email.as_str()), Some("alice@example.com"));
    assert_eq!(parsed.from.as_ref().and_then(|a| a.display_name.as_deref()), Some("Alice"));
    assert_eq!(parsed.to.len(), 1);
    assert!(parsed.body_html.as_deref().unwrap_or_default().contains("Hello"));
    assert_eq!(parsed.message_id_header.as_deref(), Some("msg-1@example.com"));
    assert_eq!(parsed.sent_at.as_deref(), Some("2026-03-11T10:00:00Z"));
    assert_eq!(parsed.parse_hash.len(), 16);
    assert_eq!(parsed.file_mtime, 7);
    assert_eq!(parsed.file_path, "/tmp/m1.eml");
}

#[test]
fn reply_headers_and_plain_body() {
    let raw = "From: Bob <bob@example.com>\nTo: Alice <alice@example.com>, carol@example.com\nCc: Dan <dan@example.com>\nSubject:   Re: Hello  \nMessage-ID: <msg-2@example.com>\nIn-Reply-To: <msg-1@example.com>\nReferences: <msg-0@example.com> <msg-1@example.com>\nDate: Tue, 11 Mar 2026 12:30:05 -0500\n\nHi   there,\n\nsee   you\n";
    let parsed = parse_message_bytes("p".to_string(), raw.as_bytes(), 0).expect("parse reply");
    assert_eq!(parsed.subject.as_deref(), Some("Re: Hello"));
    assert_eq!(parsed.in_reply_to.as_deref(), Some("msg-1@example.com"));
    assert_eq!(parsed.references, vec!["msg-0@example.com".to_string(), "msg-1@example.com".to_string()]);
    assert_eq!(parsed.to.len(), 2);
    assert_eq!(parsed.cc.len(), 1);
    assert_eq!(parsed.snippet, "Hi there, see you");
    assert_eq!(parsed.sent_at.as_deref(), Some("2026-03-11T12:30:05-05:00"));
    let participants = parsed.participants();
    assert_eq!(participants.len(), 4);
    assert_eq!(participants[0].role, "from");
    assert_eq!(participants[3].role, "cc");
}

#[test]
fn rejects_unparseable_bytes() {
    match parse_message_bytes("/tmp/empty".to_string(), b"", 0) {
        Err(AppError::Parsing(m)) => assert_eq!(m, "failed to parse message /tmp/empty"),
        Ok(_) => panic!("empty input parsed"),
        Err(other) => panic!("unexpected {other:?}"),
    }
}

#[test]
fn parse_hash_depends_on_bytes() {
    let a = compute_parse_hash(b"one");
    let b = compute_parse_hash(b"two");
    assert_eq!(a.len(), 16);
    assert!(a.chars().all(|c| c.is_ascii_hexdigit() && !c.is_ascii_uppercase()));
    assert_ne!(a, b);
    assert_eq!(a, compute_parse_hash(b"one"));
}

#[test]
fn snippet_prefers_text_and_caps_length() {
    assert_eq!(make_snippet("  a \n b ", Some("<p>x</p>")), "a b");
    assert_eq!(make_snippet("   ", Some("<p>x</p>")), "<p>x</p>");
    assert_eq!(make_snippet("", None), "");
    let long = "w ".repeat(200);
    assert_eq!(make_snippet(&long, None).chars().count(), 160);
}

fn texts(v: &[&str]) -> Vec<String> {
    v.iter().map(|s| s.to_string()).collect()
}

#[test]
fn header_steps_after_the_parser() {
    assert_eq!(nonblank_trimmed(Some("  <a@x>  ".to_string())), Some("<a@x>".to_string()));
    assert_eq!(nonblank_trimmed(Some(" \t ".to_string())), None);
    assert_eq!(nonblank_trimmed(None), None);
    assert_eq!(trim_all_nonblank(&texts(&[" a ", "  ", "b"])), texts(&["a", "b"]));
    assert_eq!(split_words("  <a@x>\n\t<b@x> "), texts(&["<a@x>", "<b@x>"]));
    assert_eq!(header_value_as_single_text(HeaderText::Text(" id1 ".to_string())), Some("id1".to_string()));
    assert_eq!(
        header_value_as_single_text(HeaderText::TextList(texts(&[" ", " id2", "id3"]))),
        Some("id2".to_string())
    );
    assert_eq!(header_value_as_single_text(HeaderText::Other), None);
    assert_eq!(header_value_as_text_list(HeaderText::Text("r1  r2\nr3".to_string())), texts(&["r1", "r2", "r3"]));
    assert_eq!(header_value_as_text_list(HeaderText::TextList(texts(&[" r1 ", ""]))), texts(&["r1"]));
    assert!(header_value_as_text_list(HeaderText::Other).is_empty());
}

#[test]
fn address_groups_flatten_to_addresses_with_email() {
    let groups = vec![
        vec![
            RawAddr { name: Some(" Ann ".to_string()), address: Some("ann@x.org".to_string()) },
            RawAddr { name: Some("Nobody".to_string()), address: None },
        ],
        vec![RawAddr { name: Some("  ".to_string()), address: Some("bob@x.org".to_string()) }],
    ];
    assert_eq!(
        parse_addresses(Some(groups)),
        vec![
            ParsedAddress { display_name: Some("Ann".to_string()), email: "ann@x.org".to_string() },
            ParsedAddress { display_name: None, email: "bob@x.org".to_string() },
        ]
    );
    assert!(parse_addresses(None).is_empty());
}
