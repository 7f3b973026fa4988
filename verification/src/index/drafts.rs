//! Draft workflow rules: which status changes are allowed, and how a draft
//! is presented for review.

use vstd::prelude::*;

use crate::config::SmtpIdentityConfig;
use crate::error::{is_config_error, is_send_error, AppError};
use crate::text::str_eq;
use crate::threading::opt_view;

verus! {

/// The status changes a draft may make: `pending` to `approved` or
/// `discarded`, `approved` to `sent` or `discarded`.
pub open spec fn transition_allowed(from: Seq<char>, to: Seq<char>) -> bool {
    (from == "pending"@ && to == "approved"@) || (from == "approved"@ && to == "sent"@) || (from
        == "pending"@ && to == "discarded"@) || (from == "approved"@ && to == "discarded"@)
}

/// Whether a draft with status `current` may move to `next`.
pub fn draft_transition_allowed(current: &str, next: &str) -> (b: bool)
    ensures
        b == transition_allowed(current@, next@),
{
    (str_eq(current, "pending") && str_eq(next, "approved")) || (str_eq(current, "approved")
        && str_eq(next, "sent")) || (str_eq(current, "pending") && str_eq(next, "discarded")) || (
    str_eq(current, "approved") && str_eq(next, "discarded"))
}

/// The check made before a status change: allowed, or refused with the
/// message `invalid draft transition: <current> -> <next>`.
pub fn check_draft_transition(current: &str, next: &str) -> (r: Result<(), String>)
    ensures
        r is Ok <==> transition_allowed(current@, next@),
        r is Err ==> r->Err_0@ == "invalid draft transition: "@ + current@ + " -> "@ + next@,
{
    if draft_transition_allowed(current, next) {
        Ok(())
    } else {
        let mut msg = String::new();
        crate::text::push_str(&mut msg, "invalid draft transition: ");
        crate::text::push_str(&mut msg, current);
        crate::text::push_str(&mut msg, " -> ");
        crate::text::push_str(&mut msg, next);
        Err(msg)
    }
}

/// `sent` and `discarded` are final; nothing moves a draft back to `pending`;
/// a draft can only be sent once approved.
pub proof fn law_draft_lifecycle(from: Seq<char>, to: Seq<char>)
    ensures
        from == "sent"@ ==> !transition_allowed(from, to),
        from == "discarded"@ ==> !transition_allowed(from, to),
        to == "pending"@ ==> !transition_allowed(from, to),
        to == "sent"@ && transition_allowed(from, to) ==> from == "approved"@,
{
    reveal_strlit("sent");
    reveal_strlit("discarded");
    reveal_strlit("pending");
    reveal_strlit("approved");
    assert("sent"@[0] == 's' && "pending"@[0] == 'p' && "approved"@[0] == 'a' && "discarded"@[0]
        == 'd');
    assert("sent"@ != "pending"@);
    assert("sent"@ != "approved"@);
    assert("discarded"@ != "pending"@);
    assert("discarded"@ != "approved"@);
    assert("pending"@ != "approved"@);
    assert("pending"@ != "sent"@);
    assert("pending"@ != "discarded"@);
}

/// The status columns of a stored draft.
#[derive(Debug, Clone, PartialEq, Eq)]
pub struct DraftStatusRow {
    pub status: String,
    pub approved_at: Option<String>,
    pub sent_at: Option<String>,
    pub updated_at: String,
}

pub type StatusRowView = (Seq<char>, Option<Seq<char>>, Option<Seq<char>>, Seq<char>);

pub open spec fn status_row_view(r: DraftStatusRow) -> StatusRowView {
    (r.status@, opt_view(r.approved_at), opt_view(r.sent_at), r.updated_at@)
}

/// The row after an allowed move to `next` at time `now`: the new status,
/// `approved_at` set to `now` on approval and `sent_at` on sending (each
/// kept otherwise), and `updated_at` set to `now`.
pub open spec fn moved_row(row: StatusRowView, next: Seq<char>, now: Seq<char>) -> StatusRowView {
    (
        next,
        if next == "approved"@ { Some(now) } else { row.1 },
        if next == "sent"@ { Some(now) } else { row.2 },
        now,
    )
}

fn copy_opt_text(o: &Option<String>) -> (r: Option<String>)
    ensures
        opt_view(r) == opt_view(*o),
{
    match o {
        Some(s) => Some(s.clone()),
        None => None,
    }
}

/// Moves a draft's status columns to `next` at time `now`: the moved row
/// when the change is allowed, else the refusal message (and the row is
/// left as it was).
pub fn change_draft_status(row: &DraftStatusRow, next: &str, now: &str) -> (r: Result<DraftStatusRow, String>)
    ensures
        r is Ok <==> transition_allowed(row.status@, next@),
        r matches Ok(n) ==> status_row_view(n) == moved_row(status_row_view(*row), next@, now@),
        r matches Err(m) ==> m@ == "invalid draft transition: "@ + row.status@ + " -> "@ + next@,
{
    match check_draft_transition(row.status.as_str(), next) {
        Err(m) => Err(m),
        Ok(()) => {
            let approved_at = if str_eq(next, "approved") {
                Some(now.to_string())
            } else {
                copy_opt_text(&row.approved_at)
            };
            let sent_at = if str_eq(next, "sent") {
                Some(now.to_string())
            } else {
                copy_opt_text(&row.sent_at)
            };
            Ok(DraftStatusRow { status: next.to_string(), approved_at, sent_at, updated_at: now.to_string() })
        },
    }
}

/// A pending draft approved at `t1` and then sent at `t2` ends up `sent`,
/// with `approved_at` = `t1`, `sent_at` = `t2` and `updated_at` = `t2`; both
/// moves are allowed, and after the send no further move is.
pub proof fn law_approve_then_send(row: StatusRowView, t1: Seq<char>, t2: Seq<char>, later: Seq<char>)
    requires
        row.0 == "pending"@,
    ensures
        transition_allowed(row.0, "approved"@),
        transition_allowed(moved_row(row, "approved"@, t1).0, "sent"@),
        moved_row(moved_row(row, "approved"@, t1), "sent"@, t2) == ("sent"@, Some(t1), Some(t2), t2),
        !transition_allowed(moved_row(moved_row(row, "approved"@, t1), "sent"@, t2).0, later),
{
    law_draft_lifecycle("sent"@, later);
    reveal_strlit("sent");
    reveal_strlit("approved");
    assert("sent"@[0] == 's' && "approved"@[0] == 'a');
    assert("sent"@ != "approved"@);
}

/// The moves a draft may make: one that is not final (`pending` or
/// `approved`) can always be discarded, a pending one can be approved and an
/// approved one sent; every allowed move starts from a draft that is not
/// final and goes to `approved` (from `pending`), `sent` (from `approved`)
/// or `discarded`.
pub proof fn law_allowed_moves(from: Seq<char>, to: Seq<char>)
    ensures
        (from == "pending"@ || from == "approved"@) ==> transition_allowed(from, "discarded"@),
        from == "pending"@ ==> transition_allowed(from, "approved"@),
        from == "approved"@ ==> transition_allowed(from, "sent"@),
        transition_allowed(from, to) ==> (from == "pending"@ || from == "approved"@) && (to
            == "approved"@ || to == "sent"@ || to == "discarded"@),
        transition_allowed(from, to) && to == "approved"@ ==> from == "pending"@,
        transition_allowed(from, to) && to == "sent"@ ==> from == "approved"@,
{
    reveal_strlit("sent");
    reveal_strlit("discarded");
    reveal_strlit("pending");
    reveal_strlit("approved");
    assert("sent"@[0] == 's' && "pending"@[0] == 'p' && "approved"@[0] == 'a' && "discarded"@[0]
        == 'd');
}

/// What approving a draft does, given its status.
#[derive(Debug, Clone, PartialEq, Eq)]
pub enum ApproveStep {
    /// Already approved: report it and change nothing.
    AlreadyApproved,
    /// Move it to `approved` and record the audit event.
    Approve,
    /// The status change is refused with this message.
    Refused(String),
}

/// The approval decision for a draft whose status is `status`.
pub fn approve_step(status: &str) -> (r: ApproveStep)
    ensures
        status@ == "approved"@ ==> r == ApproveStep::AlreadyApproved,
        status@ != "approved"@ && transition_allowed(status@, "approved"@) ==> r
            == ApproveStep::Approve,
        status@ != "approved"@ && !transition_allowed(status@, "approved"@) ==> r is Refused
            && r->Refused_0@ == "invalid draft transition: "@ + status@ + " -> "@ + "approved"@,
{
    if crate::text::str_eq(status, "approved") {
        return ApproveStep::AlreadyApproved;
    }
    match check_draft_transition(status, "approved") {
        Ok(()) => ApproveStep::Approve,
        Err(m) => ApproveStep::Refused(m),
    }
}

/// The confirmation printed after approving draft `draft_id`.
pub fn approve_message(draft_id: i64, already: bool) -> (r: String)
    ensures
        already ==> r@ == "draft "@ + crate::text::decimal_int(draft_id as int) + " already approved"@,
        !already ==> r@ == "approved draft "@ + crate::text::decimal_int(draft_id as int),
{
    let mut out = String::new();
    if already {
        crate::text::push_str(&mut out, "draft ");
        crate::text::push_decimal_i64(&mut out, draft_id);
        crate::text::push_str(&mut out, " already approved");
    } else {
        crate::text::push_str(&mut out, "approved draft ");
        crate::text::push_decimal_i64(&mut out, draft_id);
    }
    out
}

/// Index of the identity that sending uses: the first marked default, else
/// the first one.
pub open spec fn send_identity_index(smtp: Seq<SmtpIdentityConfig>) -> Option<int> {
    if exists|i: int| 0 <= i < smtp.len() && #[trigger] smtp[i].default == Some(true) {
        Some(
            choose|i: int|
                0 <= i < smtp.len() && #[trigger] smtp[i].default == Some(true) && forall|k: int|
                    0 <= k < i ==> smtp[k].default != Some(true),
        )
    } else if smtp.len() > 0 {
        Some(0)
    } else {
        None
    }
}

/// The checks made before sending draft `draft_id` with status `status`:
/// it must be approved and an SMTP identity must exist; on success, the
/// index of the identity to use.
pub fn send_precheck(draft_id: i64, status: &str, smtp: &[SmtpIdentityConfig]) -> (r: Result<usize, AppError>)
    ensures
        status@ != "approved"@ ==> r is Err && is_send_error(
            r->Err_0,
            "draft "@ + crate::text::decimal_int(draft_id as int) + " is "@ + status@
                + " and must be approved before send"@,
        ),
        status@ == "approved"@ && smtp@.len() == 0 ==> r is Err && is_config_error(
            r->Err_0,
            "no smtp identity configured"@,
        ),
        status@ == "approved"@ && smtp@.len() > 0 ==> r is Ok && Some(r->Ok_0 as int)
            == send_identity_index(smtp@),
{
    if !crate::text::str_eq(status, "approved") {
        let mut msg = String::new();
        crate::text::push_str(&mut msg, "draft ");
        crate::text::push_decimal_i64(&mut msg, draft_id);
        crate::text::push_str(&mut msg, " is ");
        crate::text::push_str(&mut msg, status);
        crate::text::push_str(&mut msg, " and must be approved before send");
        return Err(AppError::Send(msg));
    }
    let n = smtp.len();
    let mut i: usize = 0;
    while i < n
        invariant
            i <= n == smtp@.len(),
            status@ == "approved"@,
            forall|k: int| 0 <= k < i ==> smtp@[k].default != Some(true),
        decreases n - i,
    {
        if smtp[i].default == Some(true) {
            proof {
                let j = choose|j: int|
                    0 <= j < smtp@.len() && #[trigger] smtp@[j].default == Some(true) && forall|k: int|
                        0 <= k < j ==> smtp@[k].default != Some(true);
                assert(0 <= i < smtp@.len() && smtp@[i as int].default == Some(true) && forall|k: int|
                    0 <= k < i ==> smtp@[k].default != Some(true));
                if j < i {
                } else if j > i {
                }
            }
            return Ok(i);
        }
        i = i + 1;
    }
    if n == 0 {
        return Err(AppError::Config("no smtp identity configured".to_string()));
    }
    Ok(0)
}

/// Whether a stored rationale is worth showing: present and, once blanks
/// are trimmed, neither empty nor `[]`.
pub fn has_rationale(rationale_json: &Option<String>) -> (b: bool)
    ensures
        b == match rationale_json {
            Some(r) => crate::text::trim_ch(r@, ' ').len() != 0 && crate::text::trim_ch(r@, ' ')
                != "[]"@,
            None => false,
        },
{
    match rationale_json {
        Some(r) => {
            let v = crate::text::chars_of(r.as_str());
            let t = crate::text::trim_char(v.as_slice(), ' ');
            let s = crate::text::string_from(t.as_slice());
            t.len() != 0 && !crate::text::str_eq(s.as_str(), "[]")
        },
        None => false,
    }
}

/// The review status of a draft: `sent` once sent, `approved` once
/// approved, else `pending`.
pub fn approval_status(status: &str, approved_at: &Option<String>, sent_at: &Option<String>) -> (r: String)
    ensures
        r@ == (if sent_at is Some || status@ == "sent"@ {
            "sent"@
        } else if approved_at is Some || status@ == "approved"@ {
            "approved"@
        } else {
            "pending"@
        }),
{
    if sent_at.is_some() || crate::text::str_eq(status, "sent") {
        "sent".to_string()
    } else if approved_at.is_some() || crate::text::str_eq(status, "approved") {
        "approved".to_string()
    } else {
        "pending".to_string()
    }
}

/// The error for a draft id that is not stored.
pub fn draft_not_found(draft_id: i64) -> (r: AppError)
    ensures
        is_config_error(r, "draft "@ + crate::text::decimal_int(draft_id as int) + " not found"@),
{
    let mut msg = "draft ".to_string();
    crate::text::push_decimal_i64(&mut msg, draft_id);
    crate::text::push_str(&mut msg, " not found");
    AppError::Config(msg)
}

/// What `cour send` reports once the draft is marked sent: delivery itself
/// is handed on.
pub fn send_delegated_message(draft_id: i64) -> (r: String)
    ensures
        r@ == "send delegated for draft "@ + crate::text::decimal_int(draft_id as int)
            + "; SMTP delivery not wired yet"@,
{
    let mut msg = "send delegated for draft ".to_string();
    crate::text::push_decimal_i64(&mut msg, draft_id);
    crate::text::push_str(&mut msg, "; SMTP delivery not wired yet");
    msg
}

} // verus!
