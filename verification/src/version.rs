//! Versions of the described API, and the order in which an absent version
//! stands below every stated one.

use vstd::prelude::*;

verus! {

/// A release of the described API: major, minor and patch number.
#[derive(Clone, Copy, Debug, PartialEq, Eq, Structural)]
pub struct Version {
    pub major: u16,
    pub minor: u16,
    pub patch: u16,
}

impl Version {
    /// `self` is the same release as `other` or an earlier one.
    pub open spec fn le(self, other: Version) -> bool {
        self.major < other.major || (self.major == other.major && (self.minor < other.minor || (
        self.minor == other.minor && self.patch <= other.patch)))
    }

    pub fn new(major: u16, minor: u16, patch: u16) -> (v: Version)
        ensures
            v == (Version { major, minor, patch }),
    {
        Version { major, minor, patch }
    }

    /// Decides `le`.
    pub fn at_most(&self, other: &Version) -> (r: bool)
        ensures
            r == self.le(*other),
    {
        if self.major != other.major {
            self.major < other.major
        } else if self.minor != other.minor {
            self.minor < other.minor
        } else {
            self.patch <= other.patch
        }
    }
}

/// The order on optional versions: an absent version is the least element,
/// stated versions follow in their own order.
pub open spec fn version_le(a: Option<Version>, b: Option<Version>) -> bool {
    match (a, b) {
        (None, _) => true,
        (Some(_), None) => false,
        (Some(x), Some(y)) => x.le(y),
    }
}

/// Decides `version_le`.
pub fn version_at_most(a: Option<Version>, b: Option<Version>) -> (r: bool)
    ensures
        r == version_le(a, b),
{
    match a {
        None => true,
        Some(x) => match b {
            None => false,
            Some(y) => x.at_most(&y),
        },
    }
}

/// `version_le` is a total order.
pub proof fn version_le_is_total_order(a: Option<Version>, b: Option<Version>, c: Option<Version>)
    ensures
        version_le(a, a),
        version_le(a, b) || version_le(b, a),
        version_le(a, b) && version_le(b, a) ==> a == b,
        version_le(a, b) && version_le(b, c) ==> version_le(a, c),
{
}

} // verus!
