use vstd::prelude::*;

use crate::configuration::actions::Action;

verus! {

#[derive(Debug)]
pub struct Error(pub Action);

} // verus!
