//! The analysis as mathematics: what each property gives, stated over the
//! views of the inputs, and what a list of properties gives together.

use crate::bounds::Bound;
use crate::config::{any_ignored, effective_version};
use crate::env::Env;
use crate::imports::{request_of, Requirement};
use crate::input::{PropertyInputView, TypeInfoView};
use crate::library::SignalView;
use crate::properties::{
    default_value_of, AnalysisView, DiagnosticView, Eligibility, PropertyConversion, PropertyView,
};
use crate::ref_mode::RefMode;
use crate::signals::InfoView;
use crate::version::Version;
use vstd::prelude::*;

verus! {

/// The sequence of what an option holds: one element or none.
pub open spec fn held<T>(option: Option<T>) -> Seq<T> {
    match option {
        Some(t) => seq![t],
        None => Seq::empty(),
    }
}

/// The request for the type itself, where it has a name to import.
pub open spec fn type_requirement(type_: TypeInfoView, version: Option<Version>) -> Seq<
    Requirement,
> {
    match type_.import_name {
        Some(name) => seq![request_of(name, version)],
        None => Seq::empty(),
    }
}

/// The symbols that a getter needs, each from the getter's version on: the
/// type; transmuting, where the value is converted; the generic value
/// container, where the getter has a default value.
pub open spec fn getter_requirements(type_: TypeInfoView, getter: PropertyView) -> Seq<
    Requirement,
> {
    type_requirement(type_, getter.version) + (if getter.conversion != PropertyConversion::Direct {
        seq![request_of("std::mem::transmute"@, getter.version)]
    } else {
        Seq::empty()
    }) + (if getter.default_value is Some {
        seq![request_of("glib::Value"@, getter.version)]
    } else {
        Seq::empty()
    })
}

/// The symbols that a setter needs, each from the setter's version on: the
/// type; the generic value container, where the type can be written; the
/// object system and the bound's trait, where the setter has a bound.
pub open spec fn setter_requirements(type_: TypeInfoView, setter: PropertyView) -> Seq<
    Requirement,
> {
    type_requirement(type_, setter.version) + (if type_.rendered is Ok {
        seq![request_of("glib::Value"@, setter.version)]
    } else {
        Seq::empty()
    }) + (if setter.bound is Some {
        seq![request_of("glib"@, setter.version), request_of("glib::object::IsA"@, setter.version)]
    } else {
        Seq::empty()
    })
}

impl PropertyInputView {
    /// The property gets no binding of any kind: a configuration record
    /// asks to ignore it, or it was deprecated at the cutoff or before.
    pub open spec fn skipped(self, env: Env) -> bool {
        any_ignored(self.configured) || env.totally_deprecated(self.prop.deprecated_version)
    }

    /// The version from which the property's bindings are offered.
    pub open spec fn version(self) -> Option<Version> {
        effective_version(self.configured, self.prop.version)
    }

    /// The property can be read and no getter written by hand takes
    /// precedence.
    pub open spec fn readable(self, env: Env) -> bool {
        self.prop.readable && !self.manual_getter.takes_precedence(env, self.version())
    }

    /// The property can be written after construction and no setter written
    /// by hand takes precedence.
    pub open spec fn writable(self, env: Env) -> bool {
        self.prop.writable && !self.prop.construct_only && !self.manual_setter.takes_precedence(
            env,
            self.version(),
        )
    }

    /// Whether the property is to have a getter and a setter, as far as its
    /// declaration, its configuration and the functions written by hand
    /// decide, and the version in effect. `None` for a property that gets
    /// no binding of any kind.
    pub open spec fn eligibility(self, env: Env) -> Option<Eligibility> {
        if self.skipped(env) {
            None
        } else {
            Some(
                Eligibility {
                    readable: self.readable(env),
                    writable: self.writable(env),
                    version: self.version(),
                },
            )
        }
    }

    /// How a setter takes the new value: never by mutable reference.
    pub open spec fn set_in_ref_mode(self) -> RefMode {
        self.type_.in_mode.spec_for_setter_input()
    }

    /// Whether the value may be absent: exactly where a setter takes it by
    /// reference.
    pub open spec fn nullable(self) -> bool {
        self.set_in_ref_mode().spec_is_ref()
    }

    /// The getter, where the property gets one: it is not skipped, it is
    /// readable, and its type has a default value.
    pub open spec fn getter(self, env: Env) -> Option<PropertyView> {
        if !self.skipped(env) && self.readable(env) && default_value_of(self.type_) is Some {
            Some(
                PropertyView {
                    name: self.prop.name,
                    var_name: Seq::empty(),
                    typ: self.prop.typ,
                    is_get: true,
                    func_name: "get_property_"@ + self.name_for_func,
                    nullable: self.nullable(),
                    conversion: PropertyConversion::for_category(self.type_.category),
                    default_value: default_value_of(self.type_),
                    get_out_ref_mode: self.type_.return_mode,
                    set_in_ref_mode: self.set_in_ref_mode(),
                    version: self.version(),
                    deprecated_version: self.prop.deprecated_version,
                    bound: None,
                },
            )
        } else {
            None
        }
    }

    /// The setter, where the property gets one: it is not skipped and it is
    /// writable.
    pub open spec fn setter(self, env: Env) -> Option<PropertyView> {
        if !self.skipped(env) && self.writable(env) {
            Some(
                PropertyView {
                    name: self.prop.name,
                    var_name: self.var_name,
                    typ: self.prop.typ,
                    is_get: false,
                    func_name: "set_property_"@ + self.name_for_func,
                    nullable: self.nullable(),
                    conversion: PropertyConversion::for_category(self.type_.category),
                    default_value: None,
                    get_out_ref_mode: self.type_.return_mode,
                    set_in_ref_mode: self.set_in_ref_mode(),
                    version: self.version(),
                    deprecated_version: self.prop.deprecated_version,
                    bound: Bound::for_property_setter(
                        self.var_name,
                        self.prop.typ,
                        self.type_.category,
                        self.nullable(),
                    ),
                },
            )
        } else {
            None
        }
    }

    /// The signal without parameters and without a result that tells of a
    /// change of the property, for a property that is not skipped.
    pub open spec fn signal(self, env: Env) -> Option<SignalView> {
        if self.skipped(env) {
            None
        } else {
            Some(
                SignalView {
                    name: "notify::"@ + self.prop.name,
                    parameters: Seq::empty(),
                    ret: None,
                    version: self.version(),
                    deprecated_version: self.prop.deprecated_version,
                },
            )
        }
    }

    /// The binding of the change-notification signal, where the property
    /// gets one: it is not skipped and a trampoline was synthesized. Whether
    /// the property has a getter or a setter plays no part.
    pub open spec fn notify_signal(self, env: Env) -> Option<InfoView> {
        if !self.skipped(env) && self.trampoline is Some {
            Some(
                InfoView {
                    connect_name: "connect_property_"@ + self.name_for_func + "_notify"@,
                    signal_name: "notify::"@ + self.prop.name,
                    trampoline_name: self.trampoline->0,
                    version: self.version(),
                    deprecated_version: self.prop.deprecated_version,
                    doc_hidden: false,
                },
            )
        } else {
            None
        }
    }

    /// The notice given where a property that would get a getter has a type
    /// without a default value.
    pub open spec fn diagnostic(self, env: Env, owner: Seq<char>) -> Option<DiagnosticView> {
        if !self.skipped(env) && self.readable(env) && default_value_of(self.type_) is None {
            Some(DiagnosticView { property: self.prop.name, owner })
        } else {
            None
        }
    }

    /// The symbols that the signal binding needs, in the order in which
    /// they are asked for: where the binding is written into a trait, the
    /// object system and the downcast; then connecting, the handler's id,
    /// transmuting and the box.
    pub open spec fn signal_requirements(self, env: Env, generate_trait: bool) -> Seq<
        Requirement,
    > {
        let v = self.version();
        if self.notify_signal(env) is Some {
            (if generate_trait {
                seq![request_of("glib"@, v), request_of("glib::object::Downcast"@, v)]
            } else {
                Seq::empty()
            }) + seq![
                request_of("glib::signal::connect"@, v),
                request_of("glib::signal::SignalHandlerId"@, v),
                request_of("std::mem::transmute"@, v),
                request_of("std::boxed::Box as Box_"@, v),
            ]
        } else {
            Seq::empty()
        }
    }

    /// All the symbols that the property's bindings need, in the order in
    /// which they are asked for.
    pub open spec fn requirements(self, env: Env, generate_trait: bool) -> Seq<Requirement> {
        self.signal_requirements(env, generate_trait) + (match self.getter(env) {
            Some(getter) => getter_requirements(self.type_, getter),
            None => Seq::empty(),
        }) + (match self.setter(env) {
            Some(setter) => setter_requirements(self.type_, setter),
            None => Seq::empty(),
        })
    }
}

/// The analysis of a list of properties: what each of them gives, put
/// together in the order of the list.
pub open spec fn analysis_of(env: Env, inputs: Seq<PropertyInputView>, owner: Seq<char>)
    -> AnalysisView
    decreases inputs.len(),
{
    if inputs.len() == 0 {
        AnalysisView {
            properties: Seq::empty(),
            notify_signals: Seq::empty(),
            diagnostics: Seq::empty(),
        }
    } else {
        let before = analysis_of(env, inputs.drop_last(), owner);
        let input = inputs.last();
        AnalysisView {
            properties: before.properties + held(input.getter(env)) + held(input.setter(env)),
            notify_signals: before.notify_signals + held(input.notify_signal(env)),
            diagnostics: before.diagnostics + held(input.diagnostic(env, owner)),
        }
    }
}

/// The symbols that the bindings of a list of properties need, in the
/// order in which they are asked for.
pub open spec fn requirements_of(env: Env, inputs: Seq<PropertyInputView>, generate_trait: bool)
    -> Seq<Requirement>
    decreases inputs.len(),
{
    if inputs.len() == 0 {
        Seq::empty()
    } else {
        requirements_of(env, inputs.drop_last(), generate_trait) + inputs.last().requirements(
            env,
            generate_trait,
        )
    }
}

} // verus!
