use vstd::prelude::*;

use crate::configuration::actions::Action;

verus! {

#[derive(Debug)]
pub struct Pass(pub Action);

} // verus!
