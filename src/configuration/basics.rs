use vstd::prelude::*;

use crate::configuration::options::{BeginsWith, EndsWith, MustExclude, MustInclude};

verus! {

#[derive(Debug)]
pub enum OneOrMany<T> {
    Many(Vec<T>),
    Single(T),
}

#[derive(Debug)]
pub struct MessageClause(pub String);

#[derive(Debug)]
pub enum MatchClause {
    Long {
        match_clause: OneOrMany<String>,
        message: Option<MessageClause>,
    },
    Short(String),
}

#[derive(Debug)]
pub enum RegexClause {
    Long {
        regex: OneOrMany<String>,
        regex_flag: Option<String>,
        message: Option<MessageClause>,
    },
    Short(String),
}

#[derive(Debug)]
pub struct CountClause {
    pub count: u64,
    pub message: Option<MessageClause>,
}

#[derive(Debug)]
pub struct TimeClause {
    pub days: u32,
    pub message: Option<MessageClause>,
}

#[derive(Debug)]
pub struct BooleanClause {
    pub match_clause: bool,
    pub message: Option<MessageClause>,
}

#[derive(Debug)]
pub struct ChainedAndOrIncludeExcludeClause {
    pub and: Option<Vec<Self>>,
    pub or: Option<Vec<Self>>,
    pub must_include: Option<MustInclude>,
    pub must_exclude: Option<MustExclude>,
}

#[derive(Debug)]
pub struct ChainedAndOrIncludeExcludeClauseBeginsEnds {
    pub and: Option<Vec<Self>>,
    pub or: Option<Vec<Self>>,
    pub must_include: Option<MustInclude>,
    pub must_exclude: Option<MustExclude>,
    pub begins_with: Option<BeginsWith>,
    pub ends_with: Option<EndsWith>,
}

} // verus!
