//! What the user configured for a property.

use crate::version::Version;
use vstd::prelude::*;

verus! {

/// One configuration record that matches a property by its name.
#[derive(Clone, Copy, Debug, PartialEq, Eq, Structural)]
pub struct PropertyOverride {
    /// The property gets no binding at all.
    pub ignore: bool,
    /// The version from which the property's bindings are offered.
    pub version: Option<Version>,
}

/// Some record asks to ignore the property.
pub open spec fn any_ignored(overrides: Seq<PropertyOverride>) -> bool {
    exists|i: int| 0 <= i < overrides.len() && (#[trigger] overrides[i]).ignore
}

/// Decides `any_ignored`.
pub fn is_ignored(overrides: &[PropertyOverride]) -> (r: bool)
    ensures
        r == any_ignored(overrides@),
{
    let mut i: usize = 0;
    while i < overrides.len()
        invariant
            i <= overrides.len(),
            forall|j: int| 0 <= j < i ==> !(#[trigger] overrides@[j]).ignore,
        decreases overrides.len() - i,
    {
        if overrides[i].ignore {
            return true;
        }
        i += 1;
    }
    false
}

/// The least version that the records state, or `None` where none of them
/// states a version. Records without a version do not take part.
pub open spec fn least_version(overrides: Seq<PropertyOverride>) -> Option<Version>
    decreases overrides.len(),
{
    if overrides.len() == 0 {
        None
    } else {
        let before = least_version(overrides.drop_last());
        match (before, overrides.last().version) {
            (None, v) => v,
            (Some(b), None) => Some(b),
            (Some(b), Some(v)) => if v.le(b) {
                Some(v)
            } else {
                Some(b)
            },
        }
    }
}

/// `least_version` is absent exactly where no record states a version;
/// otherwise some record states it and no record states an earlier one.
pub proof fn least_version_is_minimum(overrides: Seq<PropertyOverride>)
    ensures
        least_version(overrides) is None <==> forall|i: int|
            0 <= i < overrides.len() ==> (#[trigger] overrides[i]).version is None,
        least_version(overrides) matches Some(m) ==> {
            &&& exists|i: int|
                0 <= i < overrides.len() && (#[trigger] overrides[i]).version == Some(m)
            &&& forall|i: int|
                0 <= i < overrides.len() ==> ((#[trigger] overrides[i]).version matches Some(v)
                    ==> m.le(v))
        },
    decreases overrides.len(),
{
    if overrides.len() > 0 {
        let init = overrides.drop_last();
        least_version_is_minimum(init);
        assert forall|i: int| 0 <= i < init.len() implies init[i] == overrides[i] by {}
        match least_version(overrides) {
            None => {
                assert forall|i: int| 0 <= i < overrides.len() implies (
                #[trigger] overrides[i]).version is None by {
                    if i < init.len() {
                        assert(init[i].version is None);
                    }
                }
            },
            Some(m) => {
                if overrides.last().version == Some(m) {
                    assert(overrides[overrides.len() - 1].version == Some(m));
                } else {
                    let k = choose|k: int| 0 <= k < init.len() && (#[trigger] init[k]).version == Some(m);
                    assert(overrides[k].version == Some(m));
                }
                assert forall|i: int| 0 <= i < overrides.len() implies ((
                #[trigger] overrides[i]).version matches Some(v) ==> m.le(v)) by {
                    if i < init.len() {
                        assert(init[i] == overrides[i]);
                    }
                }
            },
        }
    }
}

/// The version at which a property's bindings become available: the least
/// version among its configuration records, or the declared version where no
/// record states one.
pub open spec fn effective_version(
    overrides: Seq<PropertyOverride>,
    declared: Option<Version>,
) -> Option<Version> {
    match least_version(overrides) {
        Some(v) => Some(v),
        None => declared,
    }
}

/// Computes `least_version`.
pub fn minimum_version(overrides: &[PropertyOverride]) -> (r: Option<Version>)
    ensures
        r == least_version(overrides@),
{
    let mut least: Option<Version> = None;
    let mut i: usize = 0;
    while i < overrides.len()
        invariant
            i <= overrides.len(),
            least == least_version(overrides@.take(i as int)),
        decreases overrides.len() - i,
    {
        proof {
            assert(overrides@.take(i + 1).drop_last() =~= overrides@.take(i as int));
        }
        match overrides[i].version {
            None => {},
            Some(v) => {
                least =
                match least {
                    None => Some(v),
                    Some(b) => if v.at_most(&b) {
                        Some(v)
                    } else {
                        Some(b)
                    },
                };
            },
        }
        i += 1;
    }
    proof {
        assert(overrides@.take(i as int) =~= overrides@);
    }
    least
}

/// Computes `effective_version`.
pub fn version_in_effect(overrides: &[PropertyOverride], declared: Option<Version>) -> (r: Option<
    Version,
>)
    ensures
        r == effective_version(overrides@, declared),
{
    match minimum_version(overrides) {
        Some(v) => Some(v),
        None => declared,
    }
}

} // verus!
