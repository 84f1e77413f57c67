//! The generic bound of a setter that accepts any implementer of its
//! parameter's type.

use crate::library::{TypeCategory, TypeId};
use vstd::prelude::*;

verus! {

/// A bound on a setter's value parameter: any type that implements what
/// `typ` requires is accepted in place of `typ` itself.
#[derive(Debug)]
pub struct Bound {
    /// The parameter that the bound is put on.
    pub parameter_name: String,
    pub typ: TypeId,
    /// Whether the parameter also accepts the absence of a value.
    pub nullable: bool,
}

/// The mathematical value of a `Bound`.
pub struct BoundView {
    pub parameter_name: Seq<char>,
    pub typ: TypeId,
    pub nullable: bool,
}

impl View for Bound {
    type V = BoundView;

    open spec fn view(&self) -> BoundView {
        BoundView { parameter_name: self.parameter_name@, typ: self.typ, nullable: self.nullable }
    }
}

/// The view of an optional bound.
pub open spec fn bound_view(bound: Option<Bound>) -> Option<BoundView> {
    match bound {
        Some(b) => Some(b@),
        None => None,
    }
}

impl Bound {
    /// The bound of a property setter: objects and interfaces get one, made
    /// of the variable's name, the type and its nullability; no other
    /// category does.
    pub open spec fn for_property_setter(
        var_name: Seq<char>,
        typ: TypeId,
        category: TypeCategory,
        nullable: bool,
    ) -> Option<BoundView> {
        if category.is_object_like() {
            Some(BoundView { parameter_name: var_name, typ, nullable })
        } else {
            None
        }
    }

    /// Computes `for_property_setter`.
    pub fn get_for_property_setter(
        var_name: &str,
        typ: TypeId,
        category: &TypeCategory,
        nullable: bool,
    ) -> (bound: Option<Bound>)
        ensures
            bound_view(bound) == Bound::for_property_setter(var_name@, typ, *category, nullable),
    {
        if category.object_like() {
            Some(Bound { parameter_name: var_name.to_owned(), typ, nullable })
        } else {
            None
        }
    }
}

} // verus!
