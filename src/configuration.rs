//! The rule configuration schema: filters, validators and actions that a
//! rule engine evaluates against verified events. The types only describe
//! a configuration; nothing here interprets it.

use vstd::prelude::*;

pub mod actions;
pub mod basics;
pub mod error;
pub mod fail;
pub mod filter;
pub mod options;
pub mod pass;
pub mod validate;

verus! {

/// A YAML value that the schema carries through without reading it; relies
/// on serde_yaml's `Value` only as an opaque holder.
#[verifier::external_type_specification]
#[verifier::external_body]
pub struct YamlValue(serde_yaml::Value);

#[derive(Debug)]
pub struct Configuration {
    pub version: u32,
    pub mergeable: Vec<Rule>,
}

#[derive(Debug)]
pub struct Rule {
    pub when: Option<String>,
    pub name: Option<String>,
    pub filter: Option<Vec<filter::Filter>>,
    pub validate: Option<Vec<validate::Validator>>,
    pub pass: Option<Vec<pass::Pass>>,
    pub fail: Option<Vec<fail::Fail>>,
    pub error: Option<Vec<error::Error>>,
}

} // verus!
