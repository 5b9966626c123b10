use vstd::prelude::*;

use crate::configuration::basics::OneOrMany;

verus! {

#[derive(Debug)]
pub struct AssignAction {
    pub assignees: Option<OneOrMany<String>>,
}

#[derive(Debug)]
pub struct CheckAction {
    pub status: Option<String>,
    pub payload: Option<Payload>,
}

#[derive(Debug)]
pub struct Payload {
    pub title: Option<String>,
    pub summary: Option<String>,
    pub text: Option<String>,
}

#[derive(Debug)]
pub struct CloseAction;

#[derive(Debug)]
pub struct CommentAction {
    pub payload: Option<CommentPayload>,
    pub leave_old_comment: Option<bool>,
}

#[derive(Debug)]
pub struct CommentPayload {
    pub body: Option<String>,
}

#[derive(Debug)]
pub struct MergeAction {
    pub merge_method: Option<String>,
    pub commit_title: Option<String>,
    pub commit_message: Option<String>,
}

#[derive(Debug)]
pub struct LabelsAction {
    pub add: Option<OneOrMany<String>>,
    pub delete: Option<OneOrMany<String>>,
    pub replace: Option<OneOrMany<String>>,
}

#[derive(Debug)]
pub struct RequestReviewAction {
    pub reviewers: Option<OneOrMany<String>>,
    pub teams: Option<OneOrMany<String>>,
}

#[derive(Debug)]
pub enum Action {
    /// Supported Events 'pull_request.*', 'issues.*'
    Assign(AssignAction),
    /// Supported Events 'pull_request.assigned', 'pull_request.auto_merge_disabled', 'pull_request.auto_merge_enabled', 'pull_request.converted_to_draft', 'pull_request.demilestoned', 'pull_request.dequeued', 'pull_request.edited', 'pull_request.enqueued', 'pull_request.labeled', 'pull_request.locked', 'pull_request.milestoned', 'pull_request.opened', 'pull_request.push_synchronize', 'pull_request.ready_for_review', 'pull_request.reopened', 'pull_request.review_request_removed', 'pull_request.review_requested', 'pull_request.synchronize', 'pull_request.unassigned', 'pull_request.unlabeled', 'pull_request.unlocked', 'pull_request_review.dismissed', 'pull_request_review.edited', 'pull_request_review.submitted'
    Checks(CheckAction),
    /// Supported Events 'schedule.repository', 'pull_request.*', 'issues.*'
    Close(CloseAction),
    /// Supported Events 'schedule.repository', 'pull_request.*', 'issues.*'
    Comment(CommentAction),
    /// Supported Events 'pull_request.*', 'pull_request_review.*', 'status.*', 'check_suite.*'
    Merge(MergeAction),
    /// Supported Events 'schedule.repository', 'pull_request.*', 'issues.*'
    Labels(LabelsAction),
    /// Supported Events 'pull_request.*'
    RequestReview(RequestReviewAction),
}

} // verus!
