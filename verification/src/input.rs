//! What the analysis reads about one property.

use crate::config::PropertyOverride;
use crate::library;
use crate::library::TypeCategory;
use crate::ref_mode::RefMode;
use crate::signatures::Lookup;
use crate::text::text_view;
use vstd::prelude::*;

verus! {

/// What the type rendering and the parameter analysis know of a property's
/// type.
#[derive(Debug)]
pub struct TypeInfo {
    pub category: TypeCategory,
    /// The name under which the emitter writes the type; under `Err`, the
    /// text that stands in for a type it cannot write.
    pub rendered: Result<String, String>,
    /// The name to import for the type, where it needs an import.
    pub import_name: Option<String>,
    /// How an argument of the type is passed in.
    pub in_mode: RefMode,
    /// How a value of the type is returned.
    pub return_mode: RefMode,
}

/// The mathematical value of a `TypeInfo`.
pub struct TypeInfoView {
    pub category: TypeCategory,
    pub rendered: Result<Seq<char>, Seq<char>>,
    pub import_name: Option<Seq<char>>,
    pub in_mode: RefMode,
    pub return_mode: RefMode,
}

impl View for TypeInfo {
    type V = TypeInfoView;

    open spec fn view(&self) -> TypeInfoView {
        TypeInfoView {
            category: self.category,
            rendered: match self.rendered {
                Ok(s) => Ok(s@),
                Err(s) => Err(s@),
            },
            import_name: text_view(self.import_name),
            in_mode: self.in_mode,
            return_mode: self.return_mode,
        }
    }
}

impl TypeInfoView {
    /// The text written for the type, whether or not it can be written as a
    /// type.
    pub open spec fn type_text(self) -> Seq<char> {
        match self.rendered {
            Ok(s) => s,
            Err(s) => s,
        }
    }
}

/// Everything the analysis reads about one property: the declaration, the
/// configuration, and what the other services answered for it.
#[derive(Debug)]
pub struct PropertyInput {
    /// The property as the introspection model declares it.
    pub prop: library::Property,
    /// The configuration records that match the property's name.
    pub configured: Vec<PropertyOverride>,
    /// The property's name in the form that function names are made of.
    pub name_for_func: String,
    /// `name_for_func` in the form that can name a variable.
    pub var_name: String,
    /// The property's type.
    pub type_: TypeInfo,
    /// The registry's answer for the name that `manual_getter_name` gives.
    pub manual_getter: Lookup,
    /// The registry's answer for the name that `manual_setter_name` gives.
    pub manual_setter: Lookup,
    /// The handle of the trampoline that was synthesized for the signal
    /// that `notify_signal` describes; `None` where the synthesis failed.
    /// Not read for a property that `notify_signal` gives no signal for.
    pub trampoline: Option<String>,
}

/// The mathematical value of a `PropertyInput`.
pub struct PropertyInputView {
    pub prop: library::PropertyView,
    pub configured: Seq<PropertyOverride>,
    pub name_for_func: Seq<char>,
    pub var_name: Seq<char>,
    pub type_: TypeInfoView,
    pub manual_getter: Lookup,
    pub manual_setter: Lookup,
    pub trampoline: Option<Seq<char>>,
}

impl View for PropertyInput {
    type V = PropertyInputView;

    open spec fn view(&self) -> PropertyInputView {
        PropertyInputView {
            prop: self.prop@,
            configured: self.configured@,
            name_for_func: self.name_for_func@,
            var_name: self.var_name@,
            type_: self.type_@,
            manual_getter: self.manual_getter,
            manual_setter: self.manual_setter,
            trampoline: text_view(self.trampoline),
        }
    }
}

/// The views of a list of inputs, in order.
pub open spec fn input_views(inputs: Seq<PropertyInput>) -> Seq<PropertyInputView> {
    inputs.map_values(|p: PropertyInput| p@)
}

} // verus!
