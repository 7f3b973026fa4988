use cour::threading::{assign_threads, normalize_subject, ThreadCandidate};

fn candidate(
    id: i64,
    message_id: &str,
    in_reply_to: Option<&str>,
    references: &[&str],
    subject: &str,
) -> ThreadCandidate {
    ThreadCandidate {
        message_row_id: id,
        message_id_header: Some(message_id.to_string()),
        in_reply_to: in_reply_to.map(|s| s.to_string()),
        references: references.iter().map(|s| s.to_string()).collect(),
        subject: Some(subject.to_string()),
    }
}

#[test]
fn falls_back_to_subject_when_headers_missing() {
    let candidates = vec![
        candidate(1, "<a@example.com>", None, &[], "Project Update"),
        candidate(2, "<b@example.com>", None, &[], "Re: Project Update"),
    ];
    let assignments = assign_threads(&candidates);
    assert_eq!(assignments[0].thread_key, assignments[1].thread_key);
}

#[test]
fn uses_references_before_subject_fallback() {
    let candidates = vec![
        candidate(1, "<root@example.com>", None, &[], "Hello"),
        candidate(
            2,
            "<mid@example.com>",
            Some("<root@example.com>"),
            &["<root@example.com>"],
            "Re: Hello",
        ),
        candidate(
            3,
            "<reply@example.com>",
            None,
            &["<root@example.com>", "<mid@example.com>"],
            "Different Subject",
        ),
    ];
    let assignments = assign_threads(&candidates);
    assert_eq!(assignments[0].thread_key, assignments[1].thread_key);
    assert_eq!(assignments[0].thread_key, assignments[2].thread_key);
}

#[test]
fn falls_back_to_in_reply_to_when_references_missing() {
    let candidates = vec![
        candidate(1, "<root@example.com>", None, &[], "Status"),
        candidate(2, "<reply@example.com>", Some("<root@example.com>"), &[], "Totally different"),
    ];
    let assignments = assign_threads(&candidates);
    assert_eq!(assignments[0].thread_key, assignments[1].thread_key);
}

#[test]
fn normalize_subject_strips_common_prefixes() {
    assert_eq!(normalize_subject("Re: Fwd: Hello"), "Hello");
    assert_eq!(normalize_subject("  RE2: fw: Project Update  "), "Project Update");
}

#[test]
fn normalize_subject_is_idempotent_on_examples() {
    for s in ["Re: Fwd: Hello", "  RE2: fw: Project Update  ", "Aw: x", "", "Re:"] {
        let once = normalize_subject(s);
        assert_eq!(normalize_subject(&once), once);
    }
}

#[test]
fn unrelated_subjects_get_separate_threads() {
    let candidates = vec![
        candidate(1, "<a@example.com>", None, &[], "Alpha"),
        candidate(2, "<b@example.com>", None, &[], "Beta"),
    ];
    let assignments = assign_threads(&candidates);
    assert_ne!(assignments[0].thread_key, assignments[1].thread_key);
    assert_eq!(assignments[0].message_row_id, 1);
    assert_eq!(assignments[1].message_row_id, 2);
}
