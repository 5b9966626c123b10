use vstd::prelude::*;

use crate::configuration::basics::{BooleanClause, ChainedAndOrIncludeExcludeClause};
use serde_yaml::Value;

verus! {

#[derive(Debug)]
pub enum Filter {
    /// supported events 'pull_request.*', 'pull_request_review.*'
    Author(TheAuthor),
    /// supported events 'pull_request.*', 'pull_request_review.*'
    Repository(TheRepository),
    /// supported events 'pull_request.*', 'pull_request_review.*', issues.*'
    Payload(ThePayload),
    And(FilterAnd),
    Or(FilterOr),
    Not(FilterNot),
}

#[derive(Debug)]
pub struct FilterAnd(pub FilterStack);

#[derive(Debug)]
pub struct FilterOr(pub FilterStack);

#[derive(Debug)]
pub struct FilterNot(pub FilterStack);

#[derive(Debug)]
pub struct FilterStack {
    pub filter: Vec<Filter>,
}

#[derive(Debug)]
pub struct TheAuthor {
    pub filter: ChainedAndOrIncludeExcludeClause,
    pub team: Option<String>,
}

#[derive(Debug)]
pub struct TheRepository {
    pub visibility: Option<String>,
    pub name: Option<ChainedAndOrIncludeExcludeClause>,
    pub topics: Option<ChainedAndOrIncludeExcludeClause>,
}

#[derive(Debug)]
pub struct ThePayload {
    pub pull_request: Option<Value>,
    pub review: Option<Value>,
    pub sender: Option<Value>,
}

#[derive(Debug)]
pub enum X {
    Boolean(BooleanClause),
}

} // verus!
