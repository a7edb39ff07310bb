//! The routing guarantees of the decision procedure, stated and proved
//! once and for all payloads.

use vstd::prelude::*;

use crate::decode::CallModel;
use crate::decode::DecodeError;
use crate::decode::decode_of;
use crate::decode::issues_decode;
use crate::decode::pull_request_decode;
use crate::events::IssueCreatedModel;
use crate::json::JsonValue;
use crate::payload::action_of;
use crate::payload::changes_has_body;
use crate::payload::family_of;
use crate::payload::issue_body;
use crate::payload::issue_id;
use crate::payload::issue_title;
use crate::payload::issue_user;
use crate::payload::pr_marker;
use crate::payload::repo_of;
use crate::payload::run_of;

verus! {

/// A well-formed `"issues"` opened payload decodes to exactly the
/// issue-created call, carrying the payload's own number, title, body
/// and user — so dispatch invokes the issue-created hook with those
/// values, and no other hook.
pub proof fn lemma_issues_opened_routes_to_issue_created(
    p: JsonValue,
    n: usize,
    title: Seq<char>,
    body: Seq<char>,
    user: Seq<char>,
)
    requires
        family_of(p) == Some("issues"@),
        !pr_marker(p),
        action_of(p) == Some("opened"@),
        repo_of(p) is Some,
        run_of(p) is Some,
        issue_id(p) == Some(n),
        issue_title(p) == Some(title),
        issue_body(p) == Some(body),
        issue_user(p) == Some(user),
    ensures
        decode_of(p) == Ok::<CallModel, DecodeError>(
            CallModel::IssueCreated(
                repo_of(p).unwrap(),
                run_of(p).unwrap(),
                IssueCreatedModel { id: n, title, body, user },
            ),
        ),
{
}

/// An `"issues"` payload whose issue object carries the pull-request
/// marker is routed to the pull-request path, whatever else it holds:
/// its decoding is the pull-request decoding, and no issue hook can
/// result from it.
pub proof fn lemma_pr_marker_routes_to_pull_request(p: JsonValue)
    requires
        family_of(p) == Some("issues"@),
        pr_marker(p),
    ensures
        decode_of(p) == pull_request_decode(p),
        decode_of(p) matches Ok(c) ==> (c is PullRequestCreated || c is PullRequestUpdated
            || c is PullRequestClosed),
{
}

/// Every decoded comment event's target wraps exactly the payload's
/// issue number: `CommentTarget::id` returns that number regardless of
/// which variant the pull-request marker selected.
pub proof fn lemma_comment_target_carries_issue_number(p: JsonValue)
    ensures
        decode_of(p) matches Ok(CallModel::CommentCreated(_, _, ev)) ==> issue_id(p) == Some(
            ev.target.number(),
        ),
        decode_of(p) matches Ok(CallModel::CommentUpdated(_, _, ev)) ==> issue_id(p) == Some(
            ev.target.number(),
        ),
{
}

/// An update decode yields the body variant exactly when the payload's
/// `changes` object carries a `body` key, and the title variant exactly
/// otherwise: never both, never neither.
pub proof fn lemma_update_part_disambiguation(p: JsonValue)
    ensures
        decode_of(p) matches Ok(CallModel::IssueUpdated(_, _, ev)) ==> (changes_has_body(p)
            <==> ev.updated_part is Body) && (!changes_has_body(p) <==> ev.updated_part is Title),
        decode_of(p) matches Ok(CallModel::PullRequestUpdated(_, _, ev)) ==> (changes_has_body(p)
            <==> ev.updated_part is Body) && (!changes_has_body(p) <==> ev.updated_part is Title),
{
}

/// Decoding is a pure function of the payload alone: equal payloads
/// decode to equal hook calls, so dispatching one payload twice — on
/// fresh or reused dispatchers — asks for the same invocation twice.
pub proof fn lemma_decode_deterministic(p: JsonValue, q: JsonValue)
    requires
        p == q,
    ensures
        decode_of(p) == decode_of(q),
{
}

} // verus!
