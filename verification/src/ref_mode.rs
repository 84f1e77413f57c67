//! How a value crosses the boundary of a binding.

use vstd::prelude::*;

verus! {

/// By value, by shared reference, or by mutable reference.
#[derive(Clone, Copy, Debug, PartialEq, Eq, Structural)]
pub enum RefMode {
    ByValue,
    ByRef,
    ByRefMut,
}

impl RefMode {
    /// The value is passed by some kind of reference.
    pub open spec fn spec_is_ref(&self) -> bool {
        *self != RefMode::ByValue
    }

    /// The mode of a setter's input whose type would by itself be passed in
    /// mode `self`: a setter only reads the new value, so a mutable reference
    /// becomes a shared one.
    pub open spec fn spec_for_setter_input(self) -> RefMode {
        if self == RefMode::ByRefMut {
            RefMode::ByRef
        } else {
            self
        }
    }

    #[verifier::when_used_as_spec(spec_is_ref)]
    pub fn is_ref(&self) -> (r: bool)
        ensures
            r == self.spec_is_ref(),
    {
        match self {
            RefMode::ByValue => false,
            RefMode::ByRef => true,
            RefMode::ByRefMut => true,
        }
    }

    #[verifier::when_used_as_spec(spec_for_setter_input)]
    pub fn for_setter_input(self) -> (r: RefMode)
        ensures
            r == self.spec_for_setter_input(),
    {
        match self {
            RefMode::ByValue => RefMode::ByValue,
            RefMode::ByRef => RefMode::ByRef,
            RefMode::ByRefMut => RefMode::ByRef,
        }
    }
}

} // verus!
