//! The typed event records produced by decoding, together with their
//! mathematical models. The records are plain data: by the time one
//! exists every field it carries has already been validated.

use vstd::prelude::*;

verus! {

/// Identity of a forge repository: owning account and repository name.
#[derive(Debug, Clone, PartialEq, Eq)]
pub struct Repository {
    pub owner: String,
    pub name: String,
}

/// Mathematical image of a [`Repository`].
pub struct RepoModel {
    pub owner: Seq<char>,
    pub name: Seq<char>,
}

impl View for Repository {
    type V = RepoModel;

    open spec fn view(&self) -> RepoModel {
        RepoModel { owner: self.owner@, name: self.name@ }
    }
}

/// CI run context carrying the event, when the payload transmits one.
#[derive(Debug, Clone, Copy, PartialEq, Eq)]
pub struct RunningInfo {
    pub run_id: usize,
    pub run_number: usize,
}

/// An issue was opened: full identity and content.
#[derive(Debug, Clone, PartialEq, Eq)]
pub struct IssueCreatedEvent {
    pub id: usize,
    pub title: String,
    pub body: String,
    pub user: String,
}

/// Mathematical image of an [`IssueCreatedEvent`].
pub struct IssueCreatedModel {
    pub id: usize,
    pub title: Seq<char>,
    pub body: Seq<char>,
    pub user: Seq<char>,
}

impl View for IssueCreatedEvent {
    type V = IssueCreatedModel;

    open spec fn view(&self) -> IssueCreatedModel {
        IssueCreatedModel {
            id: self.id,
            title: self.title@,
            body: self.body@,
            user: self.user@,
        }
    }
}

/// Exactly one changed field per update event: never both, never neither.
#[derive(Debug, Clone, PartialEq, Eq)]
pub enum UpdatedPart {
    Title { from: String, to: String },
    Body { from: String, to: String },
}

/// Mathematical image of an [`UpdatedPart`].
pub enum UpdatedPartModel {
    Title { from: Seq<char>, to: Seq<char> },
    Body { from: Seq<char>, to: Seq<char> },
}

impl View for UpdatedPart {
    type V = UpdatedPartModel;

    open spec fn view(&self) -> UpdatedPartModel {
        match *self {
            UpdatedPart::Title { ref from, ref to } => UpdatedPartModel::Title {
                from: from@,
                to: to@,
            },
            UpdatedPart::Body { ref from, ref to } => UpdatedPartModel::Body {
                from: from@,
                to: to@,
            },
        }
    }
}

/// An issue's title or body was edited.
#[derive(Debug, Clone, PartialEq, Eq)]
pub struct IssueUpdatedEvent {
    pub id: usize,
    pub updated_part: UpdatedPart,
    pub user: String,
}

/// Mathematical image of an [`IssueUpdatedEvent`].
pub struct IssueUpdatedModel {
    pub id: usize,
    pub updated_part: UpdatedPartModel,
    pub user: Seq<char>,
}

impl View for IssueUpdatedEvent {
    type V = IssueUpdatedModel;

    open spec fn view(&self) -> IssueUpdatedModel {
        IssueUpdatedModel { id: self.id, updated_part: self.updated_part@, user: self.user@ }
    }
}

/// A closed issue was reopened: same shape as creation.
#[derive(Debug, Clone, PartialEq, Eq)]
pub struct IssueReopenedEvent {
    pub id: usize,
    pub title: String,
    pub body: String,
    pub user: String,
}

/// Mathematical image of an [`IssueReopenedEvent`].
pub struct IssueReopenedModel {
    pub id: usize,
    pub title: Seq<char>,
    pub body: Seq<char>,
    pub user: Seq<char>,
}

impl View for IssueReopenedEvent {
    type V = IssueReopenedModel;

    open spec fn view(&self) -> IssueReopenedModel {
        IssueReopenedModel {
            id: self.id,
            title: self.title@,
            body: self.body@,
            user: self.user@,
        }
    }
}

/// A pull request was opened: content plus the merge proposal's source
/// repository and the two branch refs.
#[derive(Debug, Clone, PartialEq, Eq)]
pub struct PullRequestCreatedEvent {
    pub id: usize,
    pub title: String,
    pub body: String,
    pub user: String,
    pub from_repo: Repository,
    pub from_ref: String,
    pub to_ref: String,
}

/// Mathematical image of a [`PullRequestCreatedEvent`].
pub struct PullRequestCreatedModel {
    pub id: usize,
    pub title: Seq<char>,
    pub body: Seq<char>,
    pub user: Seq<char>,
    pub from_repo: RepoModel,
    pub from_ref: Seq<char>,
    pub to_ref: Seq<char>,
}

impl View for PullRequestCreatedEvent {
    type V = PullRequestCreatedModel;

    open spec fn view(&self) -> PullRequestCreatedModel {
        PullRequestCreatedModel {
            id: self.id,
            title: self.title@,
            body: self.body@,
            user: self.user@,
            from_repo: self.from_repo@,
            from_ref: self.from_ref@,
            to_ref: self.to_ref@,
        }
    }
}

/// A pull request's title or body was edited.
#[derive(Debug, Clone, PartialEq, Eq)]
pub struct PullRequestUpdatedEvent {
    pub id: usize,
    pub updated_part: UpdatedPart,
    pub user: String,
}

/// Mathematical image of a [`PullRequestUpdatedEvent`].
pub struct PullRequestUpdatedModel {
    pub id: usize,
    pub updated_part: UpdatedPartModel,
    pub user: Seq<char>,
}

impl View for PullRequestUpdatedEvent {
    type V = PullRequestUpdatedModel;

    open spec fn view(&self) -> PullRequestUpdatedModel {
        PullRequestUpdatedModel {
            id: self.id,
            updated_part: self.updated_part@,
            user: self.user@,
        }
    }
}

/// What a comment is attached to. Resolved once, at classification time,
/// and never re-interpreted afterwards.
#[derive(Debug, Clone, Copy, PartialEq, Eq)]
pub enum CommentTarget {
    Issue(usize),
    PullRequest(usize),
}

impl CommentTarget {
    /// The wrapped issue or pull-request number, whichever variant holds it.
    pub open spec fn number(&self) -> usize {
        match *self {
            CommentTarget::Issue(n) => n,
            CommentTarget::PullRequest(n) => n,
        }
    }

    /// Uniform accessor: the underlying number, regardless of variant.
    pub fn id(&self) -> (n: usize)
        ensures
            n == self.number(),
    {
        match self {
            CommentTarget::Issue(x) => *x,
            CommentTarget::PullRequest(x) => *x,
        }
    }
}

/// A comment was posted on an issue or pull request.
#[derive(Debug, Clone, PartialEq, Eq)]
pub struct CommentCreatedEvent {
    pub id: usize,
    pub user: String,
    pub target: CommentTarget,
    pub body: String,
}

/// Mathematical image of a [`CommentCreatedEvent`].
pub struct CommentCreatedModel {
    pub id: usize,
    pub user: Seq<char>,
    pub target: CommentTarget,
    pub body: Seq<char>,
}

impl View for CommentCreatedEvent {
    type V = CommentCreatedModel;

    open spec fn view(&self) -> CommentCreatedModel {
        CommentCreatedModel {
            id: self.id,
            user: self.user@,
            target: self.target,
            body: self.body@,
        }
    }
}

/// A comment's body was edited: previous and current text.
#[derive(Debug, Clone, PartialEq, Eq)]
pub struct CommentUpdatedEvent {
    pub id: usize,
    pub user: String,
    pub target: CommentTarget,
    pub from: String,
    pub to: String,
}

/// Mathematical image of a [`CommentUpdatedEvent`].
pub struct CommentUpdatedModel {
    pub id: usize,
    pub user: Seq<char>,
    pub target: CommentTarget,
    pub from: Seq<char>,
    pub to: Seq<char>,
}

impl View for CommentUpdatedEvent {
    type V = CommentUpdatedModel;

    open spec fn view(&self) -> CommentUpdatedModel {
        CommentUpdatedModel {
            id: self.id,
            user: self.user@,
            target: self.target,
            from: self.from@,
            to: self.to@,
        }
    }
}

} // verus!
