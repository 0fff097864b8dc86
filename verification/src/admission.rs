//! Which part of the request space the node answers for: the range that the
//! range oracle assigns to the node's address.
//!
//! Asking the oracle is the caller's business. What it answered comes here
//! as a plain value, and this module says what the answer amounts to.

use vstd::prelude::*;

verus! {

/// The range assigned to one node, as the oracle gave it at one moment.
#[derive(Clone, Copy, Debug, PartialEq, Eq)]
pub struct RangeAssignment {
    pub node_address: [u8; 20],
    /// The lowest and the highest value of the range, both within it.
    pub range_bounds: (u64, u64),
}

/// Why no range is known.
#[derive(Debug)]
pub enum AdmissionError {
    /// The oracle could not be reached, or the contract refused the call.
    RangeOracleUnavailable { detail: String },
}

impl AdmissionError {
    /// What the oracle said when it failed.
    pub open spec fn detail_view(&self) -> Seq<char> {
        match *self {
            AdmissionError::RangeOracleUnavailable { detail } => detail@,
        }
    }

    /// What the oracle said when it failed.
    pub fn detail(&self) -> (text: &str)
        ensures
            text@ == self.detail_view(),
    {
        match self {
            AdmissionError::RangeOracleUnavailable { detail } => detail.as_str(),
        }
    }
}

impl RangeAssignment {
    /// Whether `value` lies within the bounds, the bounds included. A range
    /// whose lower bound is above its upper bound holds nothing.
    pub open spec fn holds(&self, value: u64) -> bool {
        self.range_bounds.0 <= value <= self.range_bounds.1
    }

    /// Decides `holds`.
    pub fn contains(&self, value: u64) -> (within: bool)
        ensures
            within == self.holds(value),
    {
        self.range_bounds.0 <= value && value <= self.range_bounds.1
    }
}

/// Reads the oracle's answer for `node_address`: the assignment where it
/// gave bounds, `RangeOracleUnavailable` with its words where it failed.
/// Nothing is retried here.
pub fn check_admission(node_address: [u8; 20], reply: Result<(u64, u64), String>) -> (admission:
    Result<RangeAssignment, AdmissionError>)
    ensures
        match reply {
            Ok(bounds) => admission == Ok::<RangeAssignment, AdmissionError>(
                RangeAssignment { node_address, range_bounds: bounds },
            ),
            Err(detail) => admission is Err && admission->Err_0.detail_view() == detail@,
        },
{
    match reply {
        Ok(bounds) => Ok(RangeAssignment { node_address, range_bounds: bounds }),
        Err(detail) => Err(AdmissionError::RangeOracleUnavailable { detail }),
    }
}

} // verus!
