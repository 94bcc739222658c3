//! Votes among the residents.

use vstd::prelude::*;

verus! {

/// How many options a voter may pick.
#[derive(Debug, Clone, Copy, PartialEq, Eq, Structural)]
pub enum VotingType {
    SingleChoice,
    MultipleChoice,
    YesNo,
}

impl Default for VotingType {
    fn default() -> (r: Self)
        ensures
            r == VotingType::SingleChoice,
    {
        VotingType::SingleChoice
    }
}

/// Where a vote stands.
#[derive(Debug, Clone, Copy, PartialEq, Eq, Structural)]
pub enum VotingStatus {
    Draft,
    Active,
    Closed,
    Cancelled,
}

impl Default for VotingStatus {
    fn default() -> (r: Self)
        ensures
            r == VotingStatus::Draft,
    {
        VotingStatus::Draft
    }
}

} // verus!
