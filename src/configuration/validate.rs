use vstd::prelude::*;

use crate::configuration::basics::{
    ChainedAndOrIncludeExcludeClause, ChainedAndOrIncludeExcludeClauseBeginsEnds, CountClause,
    MessageClause, TimeClause,
};
use crate::configuration::options::{
    BeginsWith, EndsWith, Jira, Max, Min, MustExclude, MustInclude, NoEmpty, Required,
};
use crate::configuration::basics::OneOrMany;
use serde_yaml::Value;

verus! {

#[derive(Debug)]
pub enum Validator {
    /// supported events 'pull_request.*', 'pull_request_review.*',
    Age(TheAge),
    /// supported events 'pull_request.*', 'pull_request_review.*'
    Approvals(TheApprovals),
    /// supported events 'pull_request.*', 'pull_request_review.*', 'issues.*'
    Assignee(TheAssignee),
    /// supported events 'pull_request.*', 'pull_request_review.*'
    Author(TheAuthor),
    /// supported events 'pull_request.*', 'pull_request_review.*', 'check_suite.*', status.*
    BaseRef(TheBaseRef),
    /// supported events 'pull_request.*', 'pull_request_review.*'
    ChangeSet(TheChangeset),
    /// supported events 'pull_request.*', 'pull_request_review.*'
    Commit(TheCommit),
    /// supported events 'pull_request.*', 'pull_request_review.*'
    Contents(TheContents),
    /// supported events 'pull_request.*', 'pull_request_review.*'
    Dependent(TheDependent),
    /// supported events 'pull_request.*', 'pull_request_review.*', 'issues.*'
    Description(TheDescription),
    /// supported events 'pull_request.*', 'pull_request_review.*'
    HeadRef(TheHeadRef),
    /// supported events 'pull_request.*', 'pull_request_review.*', 'issues.*'
    Label(TheLabel),
    /// supported events 'pull_request.*', 'pull_request_review.*', 'issues.*'
    Milestone(TheMilestone),
    /// supported events 'pull_request.*', 'pull_request_review.*', 'issues.*'
    Project(TheProject),
    /// supported events 'pull_request.*', 'pull_request_review.*'
    Size(TheSize),
    /// supported events 'schedule.repository'
    Stale(TheStale),
    /// supported events 'pull_request.*', 'pull_request_review.*', 'issues.*'
    Title(TheTitle),
    And(ValidatorAnd),
    Or(ValidatorOr),
    Not(ValidatorNot),
}

#[derive(Debug)]
pub struct ValidatorAnd(pub ValidatorStack);

#[derive(Debug)]
pub struct ValidatorOr(pub ValidatorStack);

#[derive(Debug)]
pub struct ValidatorNot(pub ValidatorStack);

#[derive(Debug)]
pub struct ValidatorStack {
    pub validate: Vec<Validator>,
}

#[derive(Debug)]
pub struct TheAge {
    pub created_at: TimeClause,
    pub updated_at: TimeClause,
}

#[derive(Debug)]
pub struct TheApprovals {
    pub min: Min,
    pub required: Option<Required>,
    pub block: Option<ApprovalsBlock>,
    pub limit: Option<ApprovalsLimit>,
    pub must_exclude: Option<ApprovalsExclude>,
}

#[derive(Debug)]
pub struct TheAssignee {
    pub min: Option<Min>,
    pub max: Option<Max>,
}

#[derive(Debug)]
pub struct TheAuthor {
    pub author: ChainedAndOrIncludeExcludeClause,
    pub team: Option<String>,
}

#[derive(Debug)]
pub struct TheBaseRef {
    pub must_include: Option<MustInclude>,
    pub must_exclude: Option<MustExclude>,
    pub media_type: Option<Value>,
}

#[derive(Debug)]
pub struct TheChangeset {
    pub no_empty: Option<NoEmpty>,
    pub changeset: ChangesetChain,
}

#[derive(Debug)]
pub struct TheCommit {
    pub message: Option<Message>,
    pub jira: Option<Jira>,
}

#[derive(Debug)]
pub struct TheContents {
    pub files: Option<Files>,
    pub content: ContentsFilter,
}

#[derive(Debug)]
pub struct TheDependent {
    pub files: Option<Vec<String>>,
    pub message: Option<MessageClause>,
    pub changed: Option<ChangedFiles>,
}

#[derive(Debug)]
pub struct TheDescription {
    pub no_empty: Option<NoEmpty>,
    pub description: Option<DescriptionChain>,
    pub jira: Option<Jira>,
}

#[derive(Debug)]
pub struct TheHeadRef {
    pub must_include: Option<MustInclude>,
    pub must_exclude: Option<MustExclude>,
    pub jira: Option<Jira>,
}

#[derive(Debug)]
pub struct TheLabel {
    pub no_empty: Option<NoEmpty>,
    pub label: LabelChain,
    pub jira: Option<Jira>,
}

#[derive(Debug)]
pub struct TheMilestone {
    pub no_empty: Option<NoEmpty>,
    pub milestone: MilestoneChain,
    pub jira: Option<Jira>,
}

#[derive(Debug)]
pub struct TheProject {
    pub must_include: Option<MustInclude>,
}

#[derive(Debug)]
pub struct TheSize {
    pub match_list: Option<Vec<String>>,
    pub ignore: Option<Vec<String>>,
    pub lines: Option<LinesChain>,
}

#[derive(Debug)]
pub struct TheStale {
    pub days: Option<u32>,
    pub resource_type: Option<OneOrMany<String>>,
    pub ignore_drafts: Option<bool>,
    pub ignore_milestones: Option<bool>,
    pub ignore_projects: Option<bool>,
    pub label: Option<LabelMatch>,
    pub time_constraint: Option<TimeConstraint>,
}

#[derive(Debug)]
pub enum ResourceType {
    PullRequest,
    Issues,
}

#[derive(Debug)]
pub struct TheTitle {
    pub no_empty: Option<NoEmpty>,
    pub title: ChainedAndOrIncludeExcludeClauseBeginsEnds,
    pub jira: Option<Jira>,
}

#[derive(Debug)]
pub struct ApprovalsRequired {
    pub reviewers: Option<Vec<String>>,
    pub owners: Option<bool>,
    pub assignees: Option<bool>,
    pub requested_reviewers: Option<bool>,
    pub message: Option<MessageClause>,
}

#[derive(Debug)]
pub struct ApprovalsBlock {
    pub changes_requested: bool,
    pub message: Option<MessageClause>,
}

#[derive(Debug)]
pub struct ApprovalsLimit {
    pub teams: Option<Vec<String>>,
    pub users: Option<Vec<String>>,
    pub owners: Option<bool>,
}

#[derive(Debug)]
pub struct ApprovalsExclude {
    pub users: Option<Vec<String>>,
}

#[derive(Debug)]
pub struct ChangesetChain {
    pub and: Option<Vec<ChangesetChain>>,
    pub or: Option<Vec<ChangesetChain>>,
    pub must_include: Option<MustInclude>,
    pub must_exclude: Option<MustExclude>,
    pub begins_with: Option<BeginsWith>,
    pub ends_with: Option<EndsWith>,
    pub min: Option<Min>,
    pub max: Option<Max>,
    pub files: Option<FilesContent>,
}

#[derive(Debug)]
pub struct FilesContent {
    pub added: Option<bool>,
    pub modified: Option<bool>,
    pub removed: Option<bool>,
}

#[derive(Debug)]
pub struct Message {
    pub regex: Option<String>,
    pub message: Option<MessageClause>,
    pub skip_merge: Option<bool>,
    pub oldest_only: Option<bool>,
    pub newest_only: Option<bool>,
    pub single_commit_only: Option<bool>,
    pub message_type: Option<String>,
}

#[derive(Debug)]
pub struct Files {
    pub pr_diff: Option<bool>,
    pub ignore: Option<Vec<String>>,
}

#[derive(Debug)]
pub struct ContentsFilter {
    pub must_include: Option<MustInclude>,
    pub must_exclude: Option<MustExclude>,
    pub begins_with: Option<BeginsWith>,
    pub ends_with: Option<EndsWith>,
}

#[derive(Debug)]
pub struct ChangedFiles {
    pub file: Option<String>,
    pub files: Option<Vec<String>>,
}

#[derive(Debug)]
pub struct DescriptionChain {
    pub and: Option<Vec<DescriptionChain>>,
    pub or: Option<Vec<DescriptionChain>>,
    pub must_include: Option<MustInclude>,
    pub must_exclude: Option<MustExclude>,
    pub begins_with: Option<BeginsWith>,
    pub ends_with: Option<EndsWith>,
}

#[derive(Debug)]
pub struct LabelChain {
    pub and: Option<Vec<LabelChain>>,
    pub or: Option<Vec<LabelChain>>,
    pub must_include: Option<MustInclude>,
    pub must_exclude: Option<MustExclude>,
    pub begins_with: Option<BeginsWith>,
    pub ends_with: Option<EndsWith>,
}

#[derive(Debug)]
pub struct MilestoneChain {
    pub and: Option<Vec<MilestoneChain>>,
    pub or: Option<Vec<MilestoneChain>>,
    pub must_include: Option<MustInclude>,
    pub must_exclude: Option<MustExclude>,
    pub begins_with: Option<BeginsWith>,
    pub ends_with: Option<EndsWith>,
}

#[derive(Debug)]
pub struct LinesChain {
    pub total: Option<CountClause>,
    pub additions: Option<CountClause>,
    pub deletions: Option<CountClause>,
    pub max: Option<Max>,
    pub ignore_comments: Option<bool>,
}

#[derive(Debug)]
pub struct LabelMatch {
    pub match_list: Option<Vec<String>>,
    pub ignore: Option<Vec<String>>,
}

#[derive(Debug)]
pub struct TimeConstraint {
    pub time_zone: Option<String>,
    pub hours_between: Option<Vec<String>>,
    pub days_of_week: Option<Vec<String>>,
}

} // verus!
