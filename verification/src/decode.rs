//! Classification and decoding of a payload into exactly one typed
//! hook call, or a structured decode error.
//!
//! The spec functions [`issues_decode`], [`pull_request_decode`],
//! [`comment_decode`] and [`decode_of`] state the whole decision
//! procedure; each exec decoder is proved to return exactly what the
//! corresponding spec function describes.

use vstd::prelude::*;

use crate::events::CommentCreatedEvent;
use crate::events::CommentCreatedModel;
use crate::events::CommentTarget;
use crate::events::CommentUpdatedEvent;
use crate::events::CommentUpdatedModel;
use crate::events::IssueCreatedEvent;
use crate::events::IssueCreatedModel;
use crate::events::IssueReopenedEvent;
use crate::events::IssueReopenedModel;
use crate::events::IssueUpdatedEvent;
use crate::events::IssueUpdatedModel;
use crate::events::PullRequestCreatedEvent;
use crate::events::PullRequestCreatedModel;
use crate::events::PullRequestUpdatedEvent;
use crate::events::PullRequestUpdatedModel;
use crate::events::RepoModel;
use crate::events::Repository;
use crate::events::RunningInfo;
use crate::events::UpdatedPart;
use crate::events::UpdatedPartModel;
use crate::json::JsonValue;
use crate::json::str_eq;
use crate::payload::action_of;
use crate::payload::base_ref_of;
use crate::payload::changed_body_from;
use crate::payload::changes_body_from;
use crate::payload::changes_from;
use crate::payload::changes_has_body;
use crate::payload::comment_body;
use crate::payload::comment_id;
use crate::payload::comment_user;
use crate::payload::extract_repo_info;
use crate::payload::extract_running_info;
use crate::payload::family_of;
use crate::payload::head_ref_of;
use crate::payload::head_repo_name;
use crate::payload::head_user;
use crate::payload::issue_body;
use crate::payload::issue_id;
use crate::payload::issue_title;
use crate::payload::issue_user;
use crate::payload::pr_marker;
use crate::payload::pull_request_body;
use crate::payload::pull_request_id;
use crate::payload::pull_request_title;
use crate::payload::pull_request_user;
use crate::payload::repo_of;
use crate::payload::run_of;

verus! {

/// Why a payload was rejected: an envelope discriminator outside the
/// known families, an action outside its family's vocabulary, or a
/// required field absent, null or of the wrong shape.
#[derive(Debug, Clone, Copy, PartialEq, Eq)]
pub enum DecodeError {
    UnknownFamily,
    UnknownAction,
    MalformedField,
}

/// The one hook invocation a decoded payload asks for, with every
/// argument the hook will receive.
#[derive(Debug, Clone, PartialEq)]
pub enum HookCall {
    IssueCreated(Repository, Option<RunningInfo>, IssueCreatedEvent),
    IssueUpdated(Repository, Option<RunningInfo>, IssueUpdatedEvent),
    IssueClosed(Repository, Option<RunningInfo>, usize),
    IssueReopened(Repository, Option<RunningInfo>, IssueReopenedEvent),
    PullRequestCreated(Repository, Option<RunningInfo>, PullRequestCreatedEvent),
    PullRequestUpdated(Repository, Option<RunningInfo>, PullRequestUpdatedEvent),
    PullRequestClosed(Repository, Option<RunningInfo>, usize),
    CommentCreated(Repository, Option<RunningInfo>, CommentCreatedEvent),
    CommentUpdated(Repository, Option<RunningInfo>, CommentUpdatedEvent),
    CommentDeleted(Repository, Option<RunningInfo>, usize),
}

/// Mathematical image of a [`HookCall`].
pub enum CallModel {
    IssueCreated(RepoModel, Option<RunningInfo>, IssueCreatedModel),
    IssueUpdated(RepoModel, Option<RunningInfo>, IssueUpdatedModel),
    IssueClosed(RepoModel, Option<RunningInfo>, usize),
    IssueReopened(RepoModel, Option<RunningInfo>, IssueReopenedModel),
    PullRequestCreated(RepoModel, Option<RunningInfo>, PullRequestCreatedModel),
    PullRequestUpdated(RepoModel, Option<RunningInfo>, PullRequestUpdatedModel),
    PullRequestClosed(RepoModel, Option<RunningInfo>, usize),
    CommentCreated(RepoModel, Option<RunningInfo>, CommentCreatedModel),
    CommentUpdated(RepoModel, Option<RunningInfo>, CommentUpdatedModel),
    CommentDeleted(RepoModel, Option<RunningInfo>, usize),
}

impl View for HookCall {
    type V = CallModel;

    open spec fn view(&self) -> CallModel {
        match *self {
            HookCall::IssueCreated(ref repo, run, ref ev) => CallModel::IssueCreated(
                repo@,
                run,
                ev@,
            ),
            HookCall::IssueUpdated(ref repo, run, ref ev) => CallModel::IssueUpdated(
                repo@,
                run,
                ev@,
            ),
            HookCall::IssueClosed(ref repo, run, id) => CallModel::IssueClosed(repo@, run, id),
            HookCall::IssueReopened(ref repo, run, ref ev) => CallModel::IssueReopened(
                repo@,
                run,
                ev@,
            ),
            HookCall::PullRequestCreated(ref repo, run, ref ev) => CallModel::PullRequestCreated(
                repo@,
                run,
                ev@,
            ),
            HookCall::PullRequestUpdated(ref repo, run, ref ev) => CallModel::PullRequestUpdated(
                repo@,
                run,
                ev@,
            ),
            HookCall::PullRequestClosed(ref repo, run, id) => CallModel::PullRequestClosed(
                repo@,
                run,
                id,
            ),
            HookCall::CommentCreated(ref repo, run, ref ev) => CallModel::CommentCreated(
                repo@,
                run,
                ev@,
            ),
            HookCall::CommentUpdated(ref repo, run, ref ev) => CallModel::CommentUpdated(
                repo@,
                run,
                ev@,
            ),
            HookCall::CommentDeleted(ref repo, run, id) => CallModel::CommentDeleted(
                repo@,
                run,
                id,
            ),
        }
    }
}

// ------------------------------------------------------------------
// The decision procedure, as spec functions.
// ------------------------------------------------------------------

/// The changed field of an issue update: the `changes.body` key decides
/// between body and title; the title branch reads its previous text
/// from the legacy `changed.body.from` path.
pub open spec fn issue_part_of(p: JsonValue) -> Option<UpdatedPartModel> {
    if changes_has_body(p) {
        match (changes_body_from(p), issue_body(p)) {
            (Some(from), Some(to)) => Some(UpdatedPartModel::Body { from, to }),
            _ => None,
        }
    } else {
        match (changed_body_from(p), issue_title(p)) {
            (Some(from), Some(to)) => Some(UpdatedPartModel::Title { from, to }),
            _ => None,
        }
    }
}

/// The changed field of a pull-request update: as [`issue_part_of`],
/// but current text sourced from the pull-request object.
pub open spec fn pull_request_part_of(p: JsonValue) -> Option<UpdatedPartModel> {
    if changes_has_body(p) {
        match (changes_body_from(p), pull_request_body(p)) {
            (Some(from), Some(to)) => Some(UpdatedPartModel::Body { from, to }),
            _ => None,
        }
    } else {
        match (changed_body_from(p), pull_request_title(p)) {
            (Some(from), Some(to)) => Some(UpdatedPartModel::Title { from, to }),
            _ => None,
        }
    }
}

/// The comment's target: the issue number, wrapped according to the
/// pull-request marker on the issue object.
pub open spec fn target_of(p: JsonValue) -> Option<CommentTarget> {
    match issue_id(p) {
        Some(n) => if pr_marker(p) {
            Some(CommentTarget::PullRequest(n))
        } else {
            Some(CommentTarget::Issue(n))
        },
        None => None,
    }
}

/// Decoding of an `"issues"` payload.
pub open spec fn issues_decode(p: JsonValue) -> Result<CallModel, DecodeError> {
    match action_of(p) {
        None => Err(DecodeError::MalformedField),
        Some(action) => match repo_of(p) {
            None => Err(DecodeError::MalformedField),
            Some(repo) => match run_of(p) {
                None => Err(DecodeError::MalformedField),
                Some(run) => if action == "opened"@ {
                    match (issue_id(p), issue_title(p), issue_body(p), issue_user(p)) {
                        (Some(id), Some(title), Some(body), Some(user)) => Ok(
                            CallModel::IssueCreated(
                                repo,
                                run,
                                IssueCreatedModel { id, title, body, user },
                            ),
                        ),
                        _ => Err(DecodeError::MalformedField),
                    }
                } else if action == "closed"@ {
                    match issue_id(p) {
                        Some(id) => Ok(CallModel::IssueClosed(repo, run, id)),
                        None => Err(DecodeError::MalformedField),
                    }
                } else if action == "updated"@ {
                    match (issue_id(p), issue_part_of(p), issue_user(p)) {
                        (Some(id), Some(updated_part), Some(user)) => Ok(
                            CallModel::IssueUpdated(
                                repo,
                                run,
                                IssueUpdatedModel { id, updated_part, user },
                            ),
                        ),
                        _ => Err(DecodeError::MalformedField),
                    }
                } else if action == "reopened"@ {
                    match (issue_id(p), issue_title(p), issue_body(p), issue_user(p)) {
                        (Some(id), Some(title), Some(body), Some(user)) => Ok(
                            CallModel::IssueReopened(
                                repo,
                                run,
                                IssueReopenedModel { id, title, body, user },
                            ),
                        ),
                        _ => Err(DecodeError::MalformedField),
                    }
                } else {
                    Err(DecodeError::UnknownAction)
                },
            },
        },
    }
}

/// Decoding of a pull-request payload, whether it arrived under the
/// `"pull_request"` family or as an `"issues"` payload whose issue
/// carries the pull-request marker. The closed and edited actions read
/// identity and author from the issue-shaped shadow object.
pub open spec fn pull_request_decode(p: JsonValue) -> Result<CallModel, DecodeError> {
    match repo_of(p) {
        None => Err(DecodeError::MalformedField),
        Some(repo) => match action_of(p) {
            None => Err(DecodeError::MalformedField),
            Some(action) => match run_of(p) {
                None => Err(DecodeError::MalformedField),
                Some(run) => if action == "opened"@ {
                    match (pull_request_id(p), pull_request_title(p), pull_request_body(p),
                    pull_request_user(p)) {
                        (Some(id), Some(title), Some(body), Some(user)) => match (head_user(p),
                        head_repo_name(p), head_ref_of(p), base_ref_of(p)) {
                            (Some(owner), Some(name), Some(from_ref), Some(to_ref)) => Ok(
                                CallModel::PullRequestCreated(
                                    repo,
                                    run,
                                    PullRequestCreatedModel {
                                        id,
                                        title,
                                        body,
                                        user,
                                        from_repo: RepoModel { owner, name },
                                        from_ref,
                                        to_ref,
                                    },
                                ),
                            ),
                            _ => Err(DecodeError::MalformedField),
                        },
                        _ => Err(DecodeError::MalformedField),
                    }
                } else if action == "closed"@ {
                    match issue_id(p) {
                        Some(id) => Ok(CallModel::PullRequestClosed(repo, run, id)),
                        None => Err(DecodeError::MalformedField),
                    }
                } else if action == "edited"@ {
                    match (issue_id(p), pull_request_part_of(p), issue_user(p)) {
                        (Some(id), Some(updated_part), Some(user)) => Ok(
                            CallModel::PullRequestUpdated(
                                repo,
                                run,
                                PullRequestUpdatedModel { id, updated_part, user },
                            ),
                        ),
                        _ => Err(DecodeError::MalformedField),
                    }
                } else {
                    Err(DecodeError::UnknownAction)
                },
            },
        },
    }
}

/// Decoding of an `"issue_comment"` payload. The target is resolved
/// before the action is examined: the issue number is required for
/// every comment action.
pub open spec fn comment_decode(p: JsonValue) -> Result<CallModel, DecodeError> {
    match repo_of(p) {
        None => Err(DecodeError::MalformedField),
        Some(repo) => match action_of(p) {
            None => Err(DecodeError::MalformedField),
            Some(action) => match run_of(p) {
                None => Err(DecodeError::MalformedField),
                Some(run) => match target_of(p) {
                    None => Err(DecodeError::MalformedField),
                    Some(target) => if action == "created"@ {
                        match (comment_id(p), comment_user(p), comment_body(p)) {
                            (Some(id), Some(user), Some(body)) => Ok(
                                CallModel::CommentCreated(
                                    repo,
                                    run,
                                    CommentCreatedModel { id, user, target, body },
                                ),
                            ),
                            _ => Err(DecodeError::MalformedField),
                        }
                    } else if action == "deleted"@ {
                        match comment_id(p) {
                            Some(id) => Ok(CallModel::CommentDeleted(repo, run, id)),
                            None => Err(DecodeError::MalformedField),
                        }
                    } else if action == "edited"@ {
                        match (comment_id(p), comment_user(p), changes_from(p), comment_body(p)) {
                            (Some(id), Some(user), Some(from), Some(to)) => Ok(
                                CallModel::CommentUpdated(
                                    repo,
                                    run,
                                    CommentUpdatedModel { id, user, target, from, to },
                                ),
                            ),
                            _ => Err(DecodeError::MalformedField),
                        }
                    } else {
                        Err(DecodeError::UnknownAction)
                    },
                },
            },
        },
    }
}

/// The whole decision procedure: classify by the `event_name`
/// discriminator, route an `"issues"` payload whose issue carries the
/// pull-request marker to the pull-request path, and decode.
pub open spec fn decode_of(p: JsonValue) -> Result<CallModel, DecodeError> {
    match family_of(p) {
        None => Err(DecodeError::UnknownFamily),
        Some(family) => if family == "issues"@ {
            if pr_marker(p) {
                pull_request_decode(p)
            } else {
                issues_decode(p)
            }
        } else if family == "pull_request"@ {
            pull_request_decode(p)
        } else if family == "issue_comment"@ {
            comment_decode(p)
        } else {
            Err(DecodeError::UnknownFamily)
        },
    }
}

// ------------------------------------------------------------------
// The exec decoders.
// ------------------------------------------------------------------

/// Narrow a payload number to the index type; out-of-range numbers are
/// malformed fields.
fn narrow_id(n: u64) -> (r: Option<usize>)
    ensures
        r == crate::payload::fit_index(Some(n)),
{
    if n <= usize::MAX as u64 {
        Some(n as usize)
    } else {
        None
    }
}

/// Decode an `"issues"` payload, exactly as [`issues_decode`] says.
pub fn decode_issues_event(p: &JsonValue) -> (r: Result<HookCall, DecodeError>)
    ensures
        match r {
            Ok(c) => issues_decode(*p) == Ok::<CallModel, DecodeError>(c@),
            Err(e) => issues_decode(*p) == Err::<CallModel, DecodeError>(e),
        },
{
    let event = match p.get("event") {
        Some(v) => v,
        None => {
            return Err(DecodeError::MalformedField);
        },
    };
    let action = match event.get_str("action") {
        Some(s) => s,
        None => {
            return Err(DecodeError::MalformedField);
        },
    };
    let repo = match extract_repo_info(p) {
        Some(r) => r,
        None => {
            return Err(DecodeError::MalformedField);
        },
    };
    let run = match extract_running_info(p) {
        Some(r) => r,
        None => {
            return Err(DecodeError::MalformedField);
        },
    };
    if str_eq(action, "opened") {
        let issue = match event.get("issue") {
            Some(v) => v,
            None => {
                return Err(DecodeError::MalformedField);
            },
        };
        let number = match issue.get_uint("number") {
            Some(n) => n,
            None => {
                return Err(DecodeError::MalformedField);
            },
        };
        let id = match narrow_id(number) {
            Some(n) => n,
            None => {
                return Err(DecodeError::MalformedField);
            },
        };
        let title = match issue.get_str("title") {
            Some(s) => s.to_owned(),
            None => {
                return Err(DecodeError::MalformedField);
            },
        };
        let body = match issue.get_str("body") {
            Some(s) => s.to_owned(),
            None => {
                return Err(DecodeError::MalformedField);
            },
        };
        let user_obj = match issue.get("user") {
            Some(v) => v,
            None => {
                return Err(DecodeError::MalformedField);
            },
        };
        let user = match user_obj.get_str("login") {
            Some(s) => s.to_owned(),
            None => {
                return Err(DecodeError::MalformedField);
            },
        };
        Ok(HookCall::IssueCreated(repo, run, IssueCreatedEvent { id, title, body, user }))
    } else if str_eq(action, "closed") {
        let issue = match event.get("issue") {
            Some(v) => v,
            None => {
                return Err(DecodeError::MalformedField);
            },
        };
        let number = match issue.get_uint("number") {
            Some(n) => n,
            None => {
                return Err(DecodeError::MalformedField);
            },
        };
        let id = match narrow_id(number) {
            Some(n) => n,
            None => {
                return Err(DecodeError::MalformedField);
            },
        };
        Ok(HookCall::IssueClosed(repo, run, id))
    } else if str_eq(action, "updated") {
        let issue = match event.get("issue") {
            Some(v) => v,
            None => {
                return Err(DecodeError::MalformedField);
            },
        };
        let changes_opt = event.get("changes");
        let has_body = match changes_opt {
            Some(changes) => changes.has("body"),
            None => false,
        };
        let updated_part: UpdatedPart;
        if has_body {
            let changes = match changes_opt {
                Some(c) => c,
                None => {
                    return Err(DecodeError::MalformedField);
                },
            };
            let body_obj = match changes.get("body") {
                Some(b) => b,
                None => {
                    return Err(DecodeError::MalformedField);
                },
            };
            let from = match body_obj.get_str("from") {
                Some(s) => s.to_owned(),
                None => {
                    return Err(DecodeError::MalformedField);
                },
            };
            let to = match issue.get_str("body") {
                Some(s) => s.to_owned(),
                None => {
                    return Err(DecodeError::MalformedField);
                },
            };
            updated_part = UpdatedPart::Body { from, to };
        } else {
            let changed = match event.get("changed") {
                Some(c) => c,
                None => {
                    return Err(DecodeError::MalformedField);
                },
            };
            let body_obj = match changed.get("body") {
                Some(b) => b,
                None => {
                    return Err(DecodeError::MalformedField);
                },
            };
            let from = match body_obj.get_str("from") {
                Some(s) => s.to_owned(),
                None => {
                    return Err(DecodeError::MalformedField);
                },
            };
            let to = match issue.get_str("title") {
                Some(s) => s.to_owned(),
                None => {
                    return Err(DecodeError::MalformedField);
                },
            };
            updated_part = UpdatedPart::Title { from, to };
        }
        let number = match issue.get_uint("number") {
            Some(n) => n,
            None => {
                return Err(DecodeError::MalformedField);
            },
        };
        let id = match narrow_id(number) {
            Some(n) => n,
            None => {
                return Err(DecodeError::MalformedField);
            },
        };
        let user_obj = match issue.get("user") {
            Some(v) => v,
            None => {
                return Err(DecodeError::MalformedField);
            },
        };
        let user = match user_obj.get_str("login") {
            Some(s) => s.to_owned(),
            None => {
                return Err(DecodeError::MalformedField);
            },
        };
        Ok(HookCall::IssueUpdated(repo, run, IssueUpdatedEvent { id, updated_part, user }))
    } else if str_eq(action, "reopened") {
        let issue = match event.get("issue") {
            Some(v) => v,
            None => {
                return Err(DecodeError::MalformedField);
            },
        };
        let number = match issue.get_uint("number") {
            Some(n) => n,
            None => {
                return Err(DecodeError::MalformedField);
            },
        };
        let id = match narrow_id(number) {
            Some(n) => n,
            None => {
                return Err(DecodeError::MalformedField);
            },
        };
        let title = match issue.get_str("title") {
            Some(s) => s.to_owned(),
            None => {
                return Err(DecodeError::MalformedField);
            },
        };
        let body = match issue.get_str("body") {
            Some(s) => s.to_owned(),
            None => {
                return Err(DecodeError::MalformedField);
            },
        };
        let user_obj = match issue.get("user") {
            Some(v) => v,
            None => {
                return Err(DecodeError::MalformedField);
            },
        };
        let user = match user_obj.get_str("login") {
            Some(s) => s.to_owned(),
            None => {
                return Err(DecodeError::MalformedField);
            },
        };
        Ok(HookCall::IssueReopened(repo, run, IssueReopenedEvent { id, title, body, user }))
    } else {
        Err(DecodeError::UnknownAction)
    }
}

/// Decode a pull-request payload, exactly as [`pull_request_decode`]
/// says.
pub fn decode_pull_request_event(p: &JsonValue) -> (r: Result<HookCall, DecodeError>)
    ensures
        match r {
            Ok(c) => pull_request_decode(*p) == Ok::<CallModel, DecodeError>(c@),
            Err(e) => pull_request_decode(*p) == Err::<CallModel, DecodeError>(e),
        },
{
    let repo = match extract_repo_info(p) {
        Some(r) => r,
        None => {
            return Err(DecodeError::MalformedField);
        },
    };
    let event = match p.get("event") {
        Some(v) => v,
        None => {
            return Err(DecodeError::MalformedField);
        },
    };
    let action = match event.get_str("action") {
        Some(s) => s,
        None => {
            return Err(DecodeError::MalformedField);
        },
    };
    let run = match extract_running_info(p) {
        Some(r) => r,
        None => {
            return Err(DecodeError::MalformedField);
        },
    };
    if str_eq(action, "opened") {
        let pull = match event.get("pull_request") {
            Some(v) => v,
            None => {
                return Err(DecodeError::MalformedField);
            },
        };
        let number = match pull.get_uint("number") {
            Some(n) => n,
            None => {
                return Err(DecodeError::MalformedField);
            },
        };
        let id = match narrow_id(number) {
            Some(n) => n,
            None => {
                return Err(DecodeError::MalformedField);
            },
        };
        let title = match pull.get_str("title") {
            Some(s) => s.to_owned(),
            None => {
                return Err(DecodeError::MalformedField);
            },
        };
        let body = match pull.get_str("body") {
            Some(s) => s.to_owned(),
            None => {
                return Err(DecodeError::MalformedField);
            },
        };
        let user_obj = match pull.get("user") {
            Some(v) => v,
            None => {
                return Err(DecodeError::MalformedField);
            },
        };
        let user = match user_obj.get_str("login") {
            Some(s) => s.to_owned(),
            None => {
                return Err(DecodeError::MalformedField);
            },
        };
        let head = match pull.get("head") {
            Some(v) => v,
            None => {
                return Err(DecodeError::MalformedField);
            },
        };
        let head_user_obj = match head.get("user") {
            Some(v) => v,
            None => {
                return Err(DecodeError::MalformedField);
            },
        };
        let owner = match head_user_obj.get_str("login") {
            Some(s) => s.to_owned(),
            None => {
                return Err(DecodeError::MalformedField);
            },
        };
        let head_repo = match head.get("repo") {
            Some(v) => v,
            None => {
                return Err(DecodeError::MalformedField);
            },
        };
        let name = match head_repo.get_str("name") {
            Some(s) => s.to_owned(),
            None => {
                return Err(DecodeError::MalformedField);
            },
        };
        let from_ref = match p.get_str("head_ref") {
            Some(s) => s.to_owned(),
            None => {
                return Err(DecodeError::MalformedField);
            },
        };
        let to_ref = match p.get_str("base_ref") {
            Some(s) => s.to_owned(),
            None => {
                return Err(DecodeError::MalformedField);
            },
        };
        Ok(
            HookCall::PullRequestCreated(
                repo,
                run,
                PullRequestCreatedEvent {
                    id,
                    title,
                    body,
                    user,
                    from_repo: Repository { owner, name },
                    from_ref,
                    to_ref,
                },
            ),
        )
    } else if str_eq(action, "closed") {
        let issue = match event.get("issue") {
            Some(v) => v,
            None => {
                return Err(DecodeError::MalformedField);
            },
        };
        let number = match issue.get_uint("number") {
            Some(n) => n,
            None => {
                return Err(DecodeError::MalformedField);
            },
        };
        let id = match narrow_id(number) {
            Some(n) => n,
            None => {
                return Err(DecodeError::MalformedField);
            },
        };
        Ok(HookCall::PullRequestClosed(repo, run, id))
    } else if str_eq(action, "edited") {
        let issue = match event.get("issue") {
            Some(v) => v,
            None => {
                return Err(DecodeError::MalformedField);
            },
        };
        let pull = match event.get("pull_request") {
            Some(v) => v,
            None => {
                return Err(DecodeError::MalformedField);
            },
        };
        let changes_opt = event.get("changes");
        let has_body = match changes_opt {
            Some(changes) => changes.has("body"),
            None => false,
        };
        let updated_part: UpdatedPart;
        if has_body {
            let changes = match changes_opt {
                Some(c) => c,
                None => {
                    return Err(DecodeError::MalformedField);
                },
            };
            let body_obj = match changes.get("body") {
                Some(b) => b,
                None => {
                    return Err(DecodeError::MalformedField);
                },
            };
            let from = match body_obj.get_str("from") {
                Some(s) => s.to_owned(),
                None => {
                    return Err(DecodeError::MalformedField);
                },
            };
            let to = match pull.get_str("body") {
                Some(s) => s.to_owned(),
                None => {
                    return Err(DecodeError::MalformedField);
                },
            };
            updated_part = UpdatedPart::Body { from, to };
        } else {
            let changed = match event.get("changed") {
                Some(c) => c,
                None => {
                    return Err(DecodeError::MalformedField);
                },
            };
            let body_obj = match changed.get("body") {
                Some(b) => b,
                None => {
                    return Err(DecodeError::MalformedField);
                },
            };
            let from = match body_obj.get_str("from") {
                Some(s) => s.to_owned(),
                None => {
                    return Err(DecodeError::MalformedField);
                },
            };
            let to = match pull.get_str("title") {
                Some(s) => s.to_owned(),
                None => {
                    return Err(DecodeError::MalformedField);
                },
            };
            updated_part = UpdatedPart::Title { from, to };
        }
        let number = match issue.get_uint("number") {
            Some(n) => n,
            None => {
                return Err(DecodeError::MalformedField);
            },
        };
        let id = match narrow_id(number) {
            Some(n) => n,
            None => {
                return Err(DecodeError::MalformedField);
            },
        };
        let user_obj = match issue.get("user") {
            Some(v) => v,
            None => {
                return Err(DecodeError::MalformedField);
            },
        };
        let user = match user_obj.get_str("login") {
            Some(s) => s.to_owned(),
            None => {
                return Err(DecodeError::MalformedField);
            },
        };
        Ok(HookCall::PullRequestUpdated(repo, run, PullRequestUpdatedEvent { id, updated_part, user }))
    } else {
        Err(DecodeError::UnknownAction)
    }
}

/// Decode an `"issue_comment"` payload, exactly as [`comment_decode`]
/// says.
pub fn decode_issue_comment_event(p: &JsonValue) -> (r: Result<HookCall, DecodeError>)
    ensures
        match r {
            Ok(c) => comment_decode(*p) == Ok::<CallModel, DecodeError>(c@),
            Err(e) => comment_decode(*p) == Err::<CallModel, DecodeError>(e),
        },
{
    let repo = match extract_repo_info(p) {
        Some(r) => r,
        None => {
            return Err(DecodeError::MalformedField);
        },
    };
    let event = match p.get("event") {
        Some(v) => v,
        None => {
            return Err(DecodeError::MalformedField);
        },
    };
    let action = match event.get_str("action") {
        Some(s) => s,
        None => {
            return Err(DecodeError::MalformedField);
        },
    };
    let run = match extract_running_info(p) {
        Some(r) => r,
        None => {
            return Err(DecodeError::MalformedField);
        },
    };
    let issue = match event.get("issue") {
        Some(v) => v,
        None => {
            return Err(DecodeError::MalformedField);
        },
    };
    let number = match issue.get_uint("number") {
        Some(n) => n,
        None => {
            return Err(DecodeError::MalformedField);
        },
    };
    let target_id = match narrow_id(number) {
        Some(n) => n,
        None => {
            return Err(DecodeError::MalformedField);
        },
    };
    let target = if issue.has("pull_request") {
        CommentTarget::PullRequest(target_id)
    } else {
        CommentTarget::Issue(target_id)
    };
    if str_eq(action, "created") {
        let comment = match event.get("comment") {
            Some(v) => v,
            None => {
                return Err(DecodeError::MalformedField);
            },
        };
        let raw_id = match comment.get_uint("id") {
            Some(n) => n,
            None => {
                return Err(DecodeError::MalformedField);
            },
        };
        let id = match narrow_id(raw_id) {
            Some(n) => n,
            None => {
                return Err(DecodeError::MalformedField);
            },
        };
        let user_obj = match comment.get("user") {
            Some(v) => v,
            None => {
                return Err(DecodeError::MalformedField);
            },
        };
        let user = match user_obj.get_str("login") {
            Some(s) => s.to_owned(),
            None => {
                return Err(DecodeError::MalformedField);
            },
        };
        let body = match comment.get_str("body") {
            Some(s) => s.to_owned(),
            None => {
                return Err(DecodeError::MalformedField);
            },
        };
        Ok(HookCall::CommentCreated(repo, run, CommentCreatedEvent { id, user, target, body }))
    } else if str_eq(action, "deleted") {
        let comment = match event.get("comment") {
            Some(v) => v,
            None => {
                return Err(DecodeError::MalformedField);
            },
        };
        let raw_id = match comment.get_uint("id") {
            Some(n) => n,
            None => {
                return Err(DecodeError::MalformedField);
            },
        };
        let id = match narrow_id(raw_id) {
            Some(n) => n,
            None => {
                return Err(DecodeError::MalformedField);
            },
        };
        Ok(HookCall::CommentDeleted(repo, run, id))
    } else if str_eq(action, "edited") {
        let comment = match event.get("comment") {
            Some(v) => v,
            None => {
                return Err(DecodeError::MalformedField);
            },
        };
        let raw_id = match comment.get_uint("id") {
            Some(n) => n,
            None => {
                return Err(DecodeError::MalformedField);
            },
        };
        let id = match narrow_id(raw_id) {
            Some(n) => n,
            None => {
                return Err(DecodeError::MalformedField);
            },
        };
        let user_obj = match comment.get("user") {
            Some(v) => v,
            None => {
                return Err(DecodeError::MalformedField);
            },
        };
        let user = match user_obj.get_str("login") {
            Some(s) => s.to_owned(),
            None => {
                return Err(DecodeError::MalformedField);
            },
        };
        let changes = match event.get("changes") {
            Some(v) => v,
            None => {
                return Err(DecodeError::MalformedField);
            },
        };
        let from = match changes.get_str("from") {
            Some(s) => s.to_owned(),
            None => {
                return Err(DecodeError::MalformedField);
            },
        };
        let to = match comment.get_str("body") {
            Some(s) => s.to_owned(),
            None => {
                return Err(DecodeError::MalformedField);
            },
        };
        Ok(HookCall::CommentUpdated(repo, run, CommentUpdatedEvent { id, user, target, from, to }))
    } else {
        Err(DecodeError::UnknownAction)
    }
}

/// Classify and decode a payload into the one hook call it asks for,
/// exactly as [`decode_of`] says.
pub fn decode_event(p: &JsonValue) -> (r: Result<HookCall, DecodeError>)
    ensures
        match r {
            Ok(c) => decode_of(*p) == Ok::<CallModel, DecodeError>(c@),
            Err(e) => decode_of(*p) == Err::<CallModel, DecodeError>(e),
        },
{
    let family = match p.get_str("event_name") {
        Some(s) => s,
        None => {
            return Err(DecodeError::UnknownFamily);
        },
    };
    let marker = match p.get("event") {
        Some(event) => match event.get("issue") {
            Some(issue) => issue.has("pull_request"),
            None => false,
        },
        None => false,
    };
    if str_eq(family, "issues") {
        if marker {
            decode_pull_request_event(p)
        } else {
            decode_issues_event(p)
        }
    } else if str_eq(family, "pull_request") {
        decode_pull_request_event(p)
    } else if str_eq(family, "issue_comment") {
        decode_issue_comment_event(p)
    } else {
        Err(DecodeError::UnknownFamily)
    }
}

} // verus!
