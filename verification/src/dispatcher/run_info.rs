use vstd::prelude::*;
use crate::cache::split::{Split, Structure};

verus! {

/// Conditions that hold of a whole run.
#[derive(Debug, Clone, Copy, PartialEq, Eq, Structural)]
pub enum RunType {
    Modern,
    Bastionless,
}

/// What an event says of the progress of a run: the milestone reached, the
/// structure it was reached in where the milestone is tied to one, and the
/// type of the run.
#[derive(Debug, Clone, Copy, PartialEq, Eq)]
pub struct RunInfo {
    pub split: Split,
    pub structure: Option<Structure>,
    pub run_type: RunType,
}

} // verus!
