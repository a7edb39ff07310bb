//! The dispatcher: hold one handler, decode each payload, and invoke
//! exactly one hook on it — or return the decode error with no hook
//! run at all.

use vstd::prelude::*;

use crate::decode::CallModel;
use crate::decode::DecodeError;
use crate::decode::HookCall;
use crate::decode::decode_event;
use crate::decode::decode_of;
use crate::events::CommentCreatedEvent;
use crate::events::CommentUpdatedEvent;
use crate::events::IssueCreatedEvent;
use crate::events::IssueReopenedEvent;
use crate::events::IssueUpdatedEvent;
use crate::events::PullRequestCreatedEvent;
use crate::events::PullRequestUpdatedEvent;
use crate::events::Repository;
use crate::events::RunningInfo;
use crate::json::JsonValue;

verus! {

/// The callback interface: one hook per decoded event. Every hook
/// defaults to a no-op, so an implementer overrides only the events it
/// cares about. A hook may do arbitrary work; the dispatcher only runs
/// it to completion.
pub trait Bot {
    fn on_issue_created(
        &self,
        _repo: Repository,
        _running_info: Option<RunningInfo>,
        _event: IssueCreatedEvent,
    ) {
    }

    fn on_issue_updated(
        &self,
        _repo: Repository,
        _running_info: Option<RunningInfo>,
        _event: IssueUpdatedEvent,
    ) {
    }

    fn on_issue_closed(
        &self,
        _repo: Repository,
        _running_info: Option<RunningInfo>,
        _issue_id: usize,
    ) {
    }

    fn on_issue_reopened(
        &self,
        _repo: Repository,
        _running_info: Option<RunningInfo>,
        _event: IssueReopenedEvent,
    ) {
    }

    fn on_pull_request_created(
        &self,
        _repo: Repository,
        _running_info: Option<RunningInfo>,
        _event: PullRequestCreatedEvent,
    ) {
    }

    fn on_pull_request_updated(
        &self,
        _repo: Repository,
        _running_info: Option<RunningInfo>,
        _event: PullRequestUpdatedEvent,
    ) {
    }

    fn on_pull_request_closed(
        &self,
        _repo: Repository,
        _running_info: Option<RunningInfo>,
        _pull_request_id: usize,
    ) {
    }

    fn on_comment_created(
        &self,
        _repo: Repository,
        _running_info: Option<RunningInfo>,
        _event: CommentCreatedEvent,
    ) {
    }

    fn on_comment_updated(
        &self,
        _repo: Repository,
        _running_info: Option<RunningInfo>,
        _event: CommentUpdatedEvent,
    ) {
    }

    fn on_comment_deleted(
        &self,
        _repo: Repository,
        _running_info: Option<RunningInfo>,
        _comment_id: usize,
    ) {
    }
}

/// Routes each payload to exactly one hook of the held handler. Holds
/// no mutable state: one instance serves any number of dispatches.
pub struct Dispatcher<T: Bot> {
    core: T,
}

impl<T: Bot> Dispatcher<T> {
    /// The handler this dispatcher routes every decoded event to.
    pub closed spec fn handler(&self) -> T {
        self.core
    }

    /// Wrap a handler: the new dispatcher holds exactly `core`, and
    /// every hook a later dispatch invokes is a method of it.
    pub fn new(core: T) -> (r: Dispatcher<T>)
        ensures
            r.handler() == core,
    {
        Dispatcher { core }
    }

    /// Decode `payload` and invoke the one hook its decoding asks for.
    /// On a decode failure the error is returned and no hook has run.
    pub fn dispatch_event(&self, payload: &JsonValue) -> (r: Result<(), DecodeError>)
        ensures
            r is Ok <==> decode_of(*payload) is Ok,
            (match r {
                Ok(_) => true,
                Err(e) => decode_of(*payload) == Err::<CallModel, DecodeError>(e),
            }),
    {
        let call = match decode_event(payload) {
            Ok(c) => c,
            Err(e) => {
                return Err(e);
            },
        };
        match call {
            HookCall::IssueCreated(repo, run, event) => self.core.on_issue_created(
                repo,
                run,
                event,
            ),
            HookCall::IssueUpdated(repo, run, event) => self.core.on_issue_updated(
                repo,
                run,
                event,
            ),
            HookCall::IssueClosed(repo, run, issue_id) => self.core.on_issue_closed(
                repo,
                run,
                issue_id,
            ),
            HookCall::IssueReopened(repo, run, event) => self.core.on_issue_reopened(
                repo,
                run,
                event,
            ),
            HookCall::PullRequestCreated(repo, run, event) => self.core.on_pull_request_created(
                repo,
                run,
                event,
            ),
            HookCall::PullRequestUpdated(repo, run, event) => self.core.on_pull_request_updated(
                repo,
                run,
                event,
            ),
            HookCall::PullRequestClosed(repo, run, pull_request_id) => self
                .core
                .on_pull_request_closed(repo, run, pull_request_id),
            HookCall::CommentCreated(repo, run, event) => self.core.on_comment_created(
                repo,
                run,
                event,
            ),
            HookCall::CommentUpdated(repo, run, event) => self.core.on_comment_updated(
                repo,
                run,
                event,
            ),
            HookCall::CommentDeleted(repo, run, comment_id) => self.core.on_comment_deleted(
                repo,
                run,
                comment_id,
            ),
        }
        Ok(())
    }
}

} // verus!
