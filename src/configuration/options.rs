use vstd::prelude::*;

use crate::configuration::basics::{
    BooleanClause, CountClause, MatchClause, MessageClause, OneOrMany, RegexClause,
};

verus! {

/// Supported Validators:
///   'payload'
#[derive(Debug)]
pub struct CommonBoolean(pub BooleanClause);

/// Supported Validators:
///   'changeset', 'content', 'description', 'label', 'milestone', 'title'
#[derive(Debug)]
pub struct BeginsWith(pub MatchClause);

/// Supported Validators:
///   'changeset', 'content', 'description', 'label', 'milestone', 'title'
#[derive(Debug)]
pub struct EndsWith(pub MatchClause);

/// Supported Validators:
///   'baseRef', 'headRef', 'changeset', 'commit', 'content', 'description', 'label', 'milestone', 'project', 'title'
#[derive(Debug)]
pub struct MustInclude(pub RegexClause);

/// Supported Validators:
///   'baseRef', 'headRef', 'changeset', 'content', 'description', 'label', 'milestone', 'title'
#[derive(Debug)]
pub struct MustExclude(pub RegexClause);

/// Supported Validators:
///   'changeset', 'description', 'label', 'milestone', 'title'
#[derive(Debug)]
pub struct NoEmpty {
    pub enabled: bool,
    pub message: Option<MessageClause>,
}

/// Supported Validators:
///   'approvals'
#[derive(Debug)]
pub struct Required {
    pub reviewers: Option<OneOrMany<String>>,
    pub owners: Option<bool>,
    pub assignees: Option<bool>,
    pub requested_reviewers: Option<bool>,
    pub message: Option<MessageClause>,
}

/// Supported Validators:
///   'approvals', 'assignee', 'changeset', 'label', 'size'
#[derive(Debug)]
pub struct Min(pub CountClause);

/// Supported Validators:
///   'approvals', 'assignee', 'changeset', 'label'
#[derive(Debug)]
pub struct Max(pub CountClause);

/// Supported Validators:
///   'commit', 'description', 'headRef', 'label', 'milestone', 'title'
#[derive(Debug)]
pub struct Jira(pub RegexClause);

} // verus!
