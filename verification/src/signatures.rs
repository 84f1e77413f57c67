//! Functions that were written by hand, as the signature registry reports
//! them, and when such a function stands in the way of a generated one.

use crate::env::Env;
use crate::text::join;
use crate::version::{version_at_most, version_le, Version};
use vstd::prelude::*;

verus! {

/// The registry's answer to the question whether a function of some name
/// exists in a type or in any type that it depends on.
#[derive(Clone, Copy, Debug, PartialEq, Eq, Structural)]
pub struct Lookup {
    pub found: bool,
    /// The version of the function that was found.
    pub version: Option<Version>,
}

impl Lookup {
    /// The function exists and wins over an accessor generated from
    /// `version` on: it is out of use altogether, or it is there at that
    /// version or before.
    pub open spec fn takes_precedence(self, env: Env, version: Option<Version>) -> bool {
        self.found && (env.totally_deprecated(self.version) || version_le(self.version, version))
    }

    /// Decides `takes_precedence`.
    pub fn suppresses(&self, env: &Env, version: Option<Version>) -> (r: bool)
        ensures
            r == self.takes_precedence(*env, version),
    {
        self.found && (env.is_totally_deprecated(self.version) || version_at_most(
            self.version,
            version,
        ))
    }
}

/// The name under which a getter written by hand is looked up.
pub open spec fn getter_name(name_for_func: Seq<char>) -> Seq<char> {
    "get_"@ + name_for_func
}

/// The name under which a setter written by hand is looked up.
pub open spec fn setter_name(name_for_func: Seq<char>) -> Seq<char> {
    "set_"@ + name_for_func
}

/// Computes `getter_name`.
pub fn manual_getter_name(name_for_func: &str) -> (name: String)
    ensures
        name@ == getter_name(name_for_func@),
{
    join("get_", name_for_func)
}

/// Computes `setter_name`.
pub fn manual_setter_name(name_for_func: &str) -> (name: String)
    ensures
        name@ == setter_name(name_for_func@),
{
    join("set_", name_for_func)
}

} // verus!
