//! Decode-and-dispatch for forge webhook payloads.
//!
//! A loosely structured JSON document (modelled by [`JsonValue`]) is
//! classified into one of a small set of typed events — issue,
//! pull-request and comment activity — and handed to exactly one hook of
//! a caller-supplied [`Bot`] implementation.

mod decode;
mod dispatch;
mod events;
mod json;
mod laws;
mod payload;

pub use decode::CallModel;
pub use decode::DecodeError;
pub use decode::HookCall;
pub use decode::comment_decode;
pub use decode::decode_event;
pub use decode::decode_issue_comment_event;
pub use decode::decode_issues_event;
pub use decode::decode_of;
pub use decode::decode_pull_request_event;
pub use decode::issue_part_of;
pub use decode::issues_decode;
pub use decode::pull_request_decode;
pub use decode::pull_request_part_of;
pub use decode::target_of;

pub use dispatch::Bot;
pub use dispatch::Dispatcher;

pub use events::CommentCreatedEvent;
pub use events::CommentCreatedModel;
pub use events::CommentTarget;
pub use events::CommentUpdatedEvent;
pub use events::CommentUpdatedModel;
pub use events::IssueCreatedEvent;
pub use events::IssueCreatedModel;
pub use events::IssueReopenedEvent;
pub use events::IssueReopenedModel;
pub use events::IssueUpdatedEvent;
pub use events::IssueUpdatedModel;
pub use events::PullRequestCreatedEvent;
pub use events::PullRequestCreatedModel;
pub use events::PullRequestUpdatedEvent;
pub use events::PullRequestUpdatedModel;
pub use events::RepoModel;
pub use events::Repository;
pub use events::RunningInfo;
pub use events::UpdatedPart;
pub use events::UpdatedPartModel;

pub use json::JsonValue;
pub use json::field_lookup_from;
pub use json::get_of;
pub use json::has_field;
pub use json::str_at;
pub use json::str_eq;
pub use json::str_of;
pub use json::uint_at;
pub use json::uint_of;

pub use laws::lemma_comment_target_carries_issue_number;
pub use laws::lemma_decode_deterministic;
pub use laws::lemma_issues_opened_routes_to_issue_created;
pub use laws::lemma_pr_marker_routes_to_pull_request;
pub use laws::lemma_update_part_disambiguation;

pub use payload::action_of;
pub use payload::all_digits;
pub use payload::base_ref_of;
pub use payload::changed_body_from;
pub use payload::changed_of;
pub use payload::changes_body_from;
pub use payload::changes_from;
pub use payload::changes_has_body;
pub use payload::changes_of;
pub use payload::comment_body;
pub use payload::comment_id;
pub use payload::comment_of;
pub use payload::comment_user;
pub use payload::dec_val;
pub use payload::event_of;
pub use payload::extract_repo_info;
pub use payload::extract_running_info;
pub use payload::family_of;
pub use payload::first_segment;
pub use payload::fit_index;
pub use payload::full_repo_name;
pub use payload::get_in;
pub use payload::head_ref_of;
pub use payload::head_repo_name;
pub use payload::head_user;
pub use payload::issue_body;
pub use payload::issue_id;
pub use payload::issue_of;
pub use payload::issue_title;
pub use payload::issue_user;
pub use payload::parse_dec;
pub use payload::parse_dec_str;
pub use payload::pr_marker;
pub use payload::pull_request_body;
pub use payload::pull_request_id;
pub use payload::pull_request_of;
pub use payload::pull_request_title;
pub use payload::pull_request_user;
pub use payload::repo_of;
pub use payload::repo_owner;
pub use payload::run_of;
pub use payload::second_segment;
pub use payload::slash_from;
pub use payload::str_in;
pub use payload::uint_in;
