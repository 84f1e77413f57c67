//! The environment of one analysis run.

use crate::version::Version;
use vstd::prelude::*;

verus! {

/// The settings that every decision of a run reads.
#[derive(Clone, Copy, Debug, PartialEq, Eq, Structural)]
pub struct Env {
    /// The deprecation cutoff of the target version: what was deprecated at
    /// this version or before it gets no binding. `None` switches the cutoff
    /// off.
    pub deprecation_cutoff: Option<Version>,
}

impl Env {
    /// Whether something deprecated at `version` lies at or before the
    /// cutoff. What was never deprecated does not.
    pub open spec fn totally_deprecated(self, version: Option<Version>) -> bool {
        match (version, self.deprecation_cutoff) {
            (Some(v), Some(cutoff)) => v.le(cutoff),
            _ => false,
        }
    }

    /// Decides `totally_deprecated`.
    pub fn is_totally_deprecated(&self, version: Option<Version>) -> (r: bool)
        ensures
            r == self.totally_deprecated(version),
    {
        match version {
            Some(v) => match self.deprecation_cutoff {
                Some(cutoff) => v.at_most(&cutoff),
                None => false,
            },
            None => false,
        }
    }
}

} // verus!
