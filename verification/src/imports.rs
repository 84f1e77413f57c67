//! The external symbols that the generated bindings need, each with the
//! version from which it is needed.

use crate::version::{version_at_most, version_le, version_le_is_total_order, Version};
use vstd::prelude::*;

verus! {

/// One required symbol and the version from which it is required.
#[derive(Debug)]
pub struct Import {
    pub name: String,
    pub version: Option<Version>,
}

/// A requirement as a mathematical value: the symbol and its version.
pub struct Requirement {
    pub name: Seq<char>,
    pub version: Option<Version>,
}

impl View for Import {
    type V = Requirement;

    open spec fn view(&self) -> Requirement {
        Requirement { name: self.name@, version: self.version }
    }
}

/// The views of a list of entries, in order.
pub open spec fn import_views(entries: Seq<Import>) -> Seq<Requirement> {
    entries.map_values(|e: Import| e@)
}

/// The required symbols: each symbol once, in the order in which the
/// symbols were first asked for, with the least version that was asked for
/// it.
#[derive(Debug)]
pub struct Imports {
    entries: Vec<Import>,
}

/// The request for `name` from `version` on.
pub open spec fn request_of(name: Seq<char>, version: Option<Version>) -> Requirement {
    Requirement { name, version }
}

/// No two requirements name the same symbol.
pub open spec fn distinct_names(list: Seq<Requirement>) -> bool {
    forall|i: int, j: int|
        0 <= i < j < list.len() ==> (#[trigger] list[i]).name != (#[trigger] list[j]).name
}

/// The place of the first requirement of `list` that names `name`.
pub open spec fn place_of(list: Seq<Requirement>, name: Seq<char>) -> Option<int>
    decreases list.len(),
{
    if list.len() == 0 {
        None
    } else {
        match place_of(list.drop_last(), name) {
            Some(i) => Some(i),
            None => if list.last().name == name {
                Some(list.len() - 1)
            } else {
                None
            },
        }
    }
}

/// The version from which `list` requires `name`, or `None` where it does
/// not require it.
pub open spec fn version_of(list: Seq<Requirement>, name: Seq<char>) -> Option<Option<Version>> {
    match place_of(list, name) {
        Some(i) => Some(list[i].version),
        None => None,
    }
}

/// The list after one more request for `name` from `version` on. A symbol
/// that is required keeps its place and the lesser of the two versions; a
/// new symbol goes to the end.
pub open spec fn with_requirement(list: Seq<Requirement>, name: Seq<char>, version: Option<Version>)
    -> Seq<Requirement> {
    match place_of(list, name) {
        Some(i) => if version_le(list[i].version, version) {
            list
        } else {
            list.update(i, request_of(name, version))
        },
        None => list.push(request_of(name, version)),
    }
}

/// The list after a list of requests, taken in order.
pub open spec fn with_requirements(list: Seq<Requirement>, requests: Seq<Requirement>) -> Seq<
    Requirement,
>
    decreases requests.len(),
{
    if requests.len() == 0 {
        list
    } else {
        with_requirement(
            with_requirements(list, requests.drop_last()),
            requests.last().name,
            requests.last().version,
        )
    }
}

/// `place_of` gives the first place at which `name` stands, and `None`
/// exactly where it stands nowhere.
pub proof fn place_of_is_first(list: Seq<Requirement>, name: Seq<char>)
    ensures
        match place_of(list, name) {
            Some(i) => {
                &&& 0 <= i < list.len()
                &&& list[i].name == name
                &&& forall|j: int| 0 <= j < i ==> (#[trigger] list[j]).name != name
            },
            None => forall|j: int| 0 <= j < list.len() ==> (#[trigger] list[j]).name != name,
        },
    decreases list.len(),
{
    if list.len() > 0 {
        let init = list.drop_last();
        place_of_is_first(init, name);
        assert forall|j: int| 0 <= j < init.len() implies init[j] == list[j] by {}
        match place_of(init, name) {
            Some(i) => {
                assert(init[i] == list[i]);
                assert forall|j: int| 0 <= j < i implies (#[trigger] list[j]).name != name by {
                    assert(init[j] == list[j]);
                }
            },
            None => {
                assert forall|j: int| 0 <= j < list.len() - 1 implies (#[trigger] list[j]).name
                    != name by {
                    assert(init[j] == list[j]);
                }
            },
        }
    }
}

/// A place at which `name` stands, with no place before it at which it
/// stands, is the place that `place_of` gives.
pub proof fn first_place_is_place_of(list: Seq<Requirement>, name: Seq<char>, i: int)
    requires
        0 <= i < list.len(),
        list[i].name == name,
        forall|j: int| 0 <= j < i ==> (#[trigger] list[j]).name != name,
    ensures
        place_of(list, name) == Some(i),
{
    place_of_is_first(list, name);
}

/// One request: the symbol asked for is then required from the lesser of
/// the version asked for and the version it was required from; every other
/// symbol is required as before; every requirement keeps its place and its
/// name; distinct names stay distinct.
pub proof fn with_requirement_effect(
    list: Seq<Requirement>,
    name: Seq<char>,
    version: Option<Version>,
    other: Seq<char>,
)
    ensures
        version_of(with_requirement(list, name, version), name) == Some(
            match version_of(list, name) {
                Some(known) => if version_le(known, version) {
                    known
                } else {
                    version
                },
                None => version,
            },
        ),
        other != name ==> version_of(with_requirement(list, name, version), other) == version_of(
            list,
            other,
        ),
        list.len() <= with_requirement(list, name, version).len() <= list.len() + 1,
        forall|i: int|
            0 <= i < list.len() ==> (#[trigger] with_requirement(list, name, version)[i]).name
                == list[i].name,
        distinct_names(list) ==> distinct_names(with_requirement(list, name, version)),
{
    let after = with_requirement(list, name, version);
    place_of_is_first(list, name);
    place_of_is_first(list, other);
    match place_of(list, name) {
        Some(i) => {
            first_place_is_place_of(after, name, i);
            match place_of(list, other) {
                Some(k) => {
                    if other != name {
                        first_place_is_place_of(after, other, k);
                    }
                },
                None => {
                    place_of_is_first(after, other);
                    if place_of(after, other) is Some {
                        let k = place_of(after, other)->0;
                        assert(list[k].name != other);
                    }
                },
            }
        },
        None => {
            first_place_is_place_of(after, name, list.len() as int);
            match place_of(list, other) {
                Some(k) => {
                    if other != name {
                        first_place_is_place_of(after, other, k);
                    }
                },
                None => {
                    place_of_is_first(after, other);
                    if other != name && place_of(after, other) is Some {
                        let k = place_of(after, other)->0;
                        if k < list.len() {
                            assert(list[k].name != other);
                        }
                    }
                },
            }
        },
    }
    if distinct_names(list) {
        assert forall|i: int, j: int| 0 <= i < j < after.len() implies (#[trigger] after[i]).name != (
        #[trigger] after[j]).name by {
            if j < list.len() {
                assert(list[i].name != list[j].name);
            } else {
                assert(list[i].name != name);
            }
        }
    }
}

/// Requests taken in two runs give what they give taken in one.
pub proof fn with_requirements_concat(
    list: Seq<Requirement>,
    first: Seq<Requirement>,
    second: Seq<Requirement>,
)
    ensures
        with_requirements(list, first + second) == with_requirements(
            with_requirements(list, first),
            second,
        ),
    decreases second.len(),
{
    if second.len() == 0 {
        assert(first + second =~= first);
    } else {
        with_requirements_concat(list, first, second.drop_last());
        assert((first + second).drop_last() =~= first + second.drop_last());
        assert((first + second).last() == second.last());
    }
}

/// What is required stays required through later requests, at its place,
/// and its version is never raised: the list only grows at its end.
pub proof fn requirements_only_lower(
    list: Seq<Requirement>,
    requests: Seq<Requirement>,
    name: Seq<char>,
)
    ensures
        list.len() <= with_requirements(list, requests).len(),
        forall|i: int|
            0 <= i < list.len() ==> (#[trigger] with_requirements(list, requests)[i]).name
                == list[i].name,
        distinct_names(list) ==> distinct_names(with_requirements(list, requests)),
        version_of(list, name) matches Some(known) ==> (version_of(
            with_requirements(list, requests),
            name,
        ) matches Some(now) && version_le(now, known)),
    decreases requests.len(),
{
    if requests.len() == 0 {
        if version_of(list, name) is Some {
            let known = version_of(list, name)->0;
            version_le_is_total_order(known, known, known);
        }
    } else {
        let before = with_requirements(list, requests.drop_last());
        let last = requests.last();
        requirements_only_lower(list, requests.drop_last(), name);
        with_requirement_effect(before, last.name, last.version, name);
        let after = with_requirements(list, requests);
        assert forall|i: int| 0 <= i < list.len() implies (#[trigger] after[i]).name
            == list[i].name by {
            assert(before[i].name == list[i].name);
        }
        if version_of(list, name) is Some {
            let known = version_of(list, name)->0;
            let middle = version_of(before, name)->0;
            let now = version_of(after, name)->0;
            version_le_is_total_order(now, middle, known);
            version_le_is_total_order(last.version, middle, known);
        }
    }
}

/// After a list of requests every requested symbol is required, from a
/// version that is not after the one asked for.
pub proof fn requested_symbols_are_required(
    list: Seq<Requirement>,
    requests: Seq<Requirement>,
    i: int,
)
    requires
        0 <= i < requests.len(),
    ensures
        version_of(with_requirements(list, requests), requests[i].name) matches Some(now)
            && version_le(now, requests[i].version),
    decreases requests.len(),
{
    let init = requests.drop_last();
    let before = with_requirements(list, init);
    let last = requests.last();
    with_requirement_effect(before, last.name, last.version, requests[i].name);
    if i < requests.len() - 1 {
        requested_symbols_are_required(list, init, i);
        assert(init[i] == requests[i]);
        let middle = version_of(before, requests[i].name)->0;
        version_le_is_total_order(last.version, middle, requests[i].version);
        version_le_is_total_order(middle, last.version, requests[i].version);
    } else {
        let now = version_of(with_requirements(list, requests), last.name)->0;
        version_le_is_total_order(last.version, last.version, last.version);
        if version_of(before, last.name) is Some {
            version_le_is_total_order(version_of(before, last.name)->0, last.version, last.version);
        }
    }
}

/// A symbol is required after a list of requests only if it was required
/// before or one of the requests names it, and its version is then the one
/// it had before or the one of such a request: requests add no symbol and
/// no version of their own making.
pub proof fn required_symbols_were_requested(
    list: Seq<Requirement>,
    requests: Seq<Requirement>,
    name: Seq<char>,
)
    requires
        version_of(with_requirements(list, requests), name) is Some,
    ensures
        version_of(list, name) == version_of(with_requirements(list, requests), name) || (
        exists|i: int|
            0 <= i < requests.len() && #[trigger] requests[i] == request_of(
                name,
                version_of(with_requirements(list, requests), name)->0,
            )),
    decreases requests.len(),
{
    if requests.len() > 0 {
        let init = requests.drop_last();
        let before = with_requirements(list, init);
        let last = requests.last();
        let after = with_requirements(list, requests);
        with_requirement_effect(before, last.name, last.version, name);
        let now = version_of(after, name)->0;
        if last.name == name && now == last.version {
            assert(requests[requests.len() - 1] == request_of(name, now));
        } else {
            assert(version_of(before, name) == Some(now));
            required_symbols_were_requested(list, init, name);
            if version_of(list, name) != version_of(before, name) {
                let i = choose|i: int|
                    0 <= i < init.len() && #[trigger] init[i] == request_of(name, now);
                assert(requests[i] == init[i]);
            }
        }
    }
}

/// Requests for symbols that are already required, each from a version
/// that is not before the one it is required from, change nothing.
pub proof fn satisfied_requests_change_nothing(list: Seq<Requirement>, requests: Seq<Requirement>)
    requires
        forall|i: int|
            0 <= i < requests.len() ==> (version_of(list, (#[trigger] requests[i]).name) matches Some(
                known,
            ) && version_le(known, requests[i].version)),
    ensures
        with_requirements(list, requests) == list,
    decreases requests.len(),
{
    if requests.len() > 0 {
        let init = requests.drop_last();
        assert forall|i: int| 0 <= i < init.len() implies (version_of(
            list,
            (#[trigger] init[i]).name,
        ) matches Some(known) && version_le(known, init[i].version)) by {
            assert(init[i] == requests[i]);
        }
        satisfied_requests_change_nothing(list, init);
        assert(requests[requests.len() - 1] == requests.last());
    }
}

/// Asking a second time for what was asked changes nothing.
pub proof fn repeated_requests_change_nothing(list: Seq<Requirement>, requests: Seq<Requirement>)
    ensures
        with_requirements(with_requirements(list, requests), requests) == with_requirements(
            list,
            requests,
        ),
{
    let after = with_requirements(list, requests);
    assert forall|i: int| 0 <= i < requests.len() implies (version_of(
        after,
        (#[trigger] requests[i]).name,
    ) matches Some(known) && version_le(known, requests[i].version)) by {
        requested_symbols_are_required(list, requests, i);
    }
    satisfied_requests_change_nothing(after, requests);
}

impl Imports {
    #[verifier::type_invariant]
    spec fn well_formed(self) -> bool {
        distinct_names(import_views(self.entries@))
    }

    /// The requirements: each symbol once, in the order in which the
    /// symbols were first asked for.
    pub closed spec fn view(&self) -> Seq<Requirement> {
        import_views(self.entries@)
    }

    pub fn new() -> (imports: Imports)
        ensures
            imports@ == Seq::<Requirement>::empty(),
    {
        let imports = Imports { entries: Vec::new() };
        proof {
            assert(imports@ =~= Seq::<Requirement>::empty());
        }
        imports
    }

    /// The place of `name` among the entries, if it has one.
    fn position(&self, name: &String) -> (r: Option<usize>)
        ensures
            match r {
                Some(i) => i < self.entries@.len() && place_of(self@, name@) == Some(i as int),
                None => place_of(self@, name@) is None,
            },
    {
        let mut i: usize = 0;
        while i < self.entries.len()
            invariant
                i <= self.entries@.len(),
                forall|j: int| 0 <= j < i ==> (#[trigger] self@[j]).name != name@,
            decreases self.entries@.len() - i,
        {
            if self.entries[i].name == *name {
                proof {
                    first_place_is_place_of(self@, name@, i as int);
                }
                return Some(i);
            }
            i += 1;
        }
        proof {
            place_of_is_first(self@, name@);
        }
        None
    }

    /// The version from which `name` is required, or `None` where nothing
    /// asked for it.
    pub fn get(&self, name: &str) -> (r: Option<Option<Version>>)
        ensures
            r == version_of(self@, name@),
    {
        let key = name.to_owned();
        match self.position(&key) {
            Some(i) => {
                assert(self@[i as int].version == self.entries@[i as int].version);
                Some(self.entries[i].version)
            },
            None => None,
        }
    }

    /// Asks for `name` from `version` on. A symbol that is already required
    /// keeps the lesser of its version and `version`.
    pub fn add(&mut self, name: &str, version: Option<Version>)
        ensures
            final(self)@ == with_requirement(old(self)@, name@, version),
    {
        let key = name.to_owned();
        proof {
            use_type_invariant(&*self);
            with_requirement_effect(self@, name@, version, name@);
        }
        let found = self.position(&key);
        let mut entries = Vec::new();
        std::mem::swap(&mut entries, &mut self.entries);
        let ghost before = import_views(entries@);
        match found {
            Some(i) => {
                assert(before[i as int].version == entries@[i as int].version);
                if !version_at_most(entries[i].version, version) {
                    entries.set(i, Import { name: key, version });
                }
            },
            None => {
                entries.push(Import { name: key, version });
            },
        }
        proof {
            assert(import_views(entries@) =~= with_requirement(before, name@, version));
        }
        self.entries = entries;
    }

    /// Every required symbol with its version, in the order in which the
    /// symbols were first asked for, each symbol once.
    pub fn entries(&self) -> (r: &Vec<Import>)
        ensures
            import_views(r@) == self@,
            distinct_names(self@),
    {
        proof {
            use_type_invariant(self);
        }
        &self.entries
    }
}

} // verus!
