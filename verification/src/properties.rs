//! The analysis itself: for each property of a type, the getter, the setter
//! and the change-notification signal that the emitter is to write.

use crate::bounds::{bound_view, Bound, BoundView};
use crate::config::{any_ignored, is_ignored, version_in_effect, PropertyOverride};
use crate::env::Env;
use crate::imports::{
    request_of, with_requirements, with_requirements_concat, Imports, Requirement,
};
use crate::input::{input_views, PropertyInput, PropertyInputView, TypeInfo, TypeInfoView};
use crate::library;
use crate::library::{Fundamental, Signal, TypeCategory, TypeId};
use crate::model::{analysis_of, getter_requirements, held, requirements_of, setter_requirements};
use crate::ref_mode::RefMode;
use crate::signals::{info_view, info_views, Info, InfoView};
use crate::text::{join, join3, text_view};
use crate::version::Version;
use vstd::prelude::*;

verus! {

/// How a property's value is moved between its own type and the generic
/// value container.
#[derive(Clone, Copy, Debug, PartialEq, Eq, Structural)]
pub enum PropertyConversion {
    /// As it is.
    Direct,
    /// An enumeration, carried as a plain integer.
    AsI32,
    /// A set of bit flags, carried as a plain integer.
    Bitflag,
}

impl PropertyConversion {
    /// The conversion that a type category calls for.
    pub open spec fn for_category(category: TypeCategory) -> PropertyConversion {
        match category {
            TypeCategory::Bitfield => PropertyConversion::Bitflag,
            TypeCategory::Enumeration => PropertyConversion::AsI32,
            _ => PropertyConversion::Direct,
        }
    }

    /// Computes `for_category`.
    pub fn of(type_: &TypeCategory) -> (conversion: PropertyConversion)
        ensures
            conversion == PropertyConversion::for_category(*type_),
    {
        match type_ {
            TypeCategory::Bitfield => PropertyConversion::Bitflag,
            TypeCategory::Enumeration => PropertyConversion::AsI32,
            TypeCategory::Fundamental(_) => PropertyConversion::Direct,
            TypeCategory::Alias => PropertyConversion::Direct,
            TypeCategory::Record => PropertyConversion::Direct,
            TypeCategory::Union => PropertyConversion::Direct,
            TypeCategory::Function => PropertyConversion::Direct,
            TypeCategory::Interface => PropertyConversion::Direct,
            TypeCategory::Class => PropertyConversion::Direct,
            TypeCategory::Custom => PropertyConversion::Direct,
            TypeCategory::Array => PropertyConversion::Direct,
            TypeCategory::CArray => PropertyConversion::Direct,
            TypeCategory::FixedArray => PropertyConversion::Direct,
            TypeCategory::PtrArray => PropertyConversion::Direct,
            TypeCategory::HashTable => PropertyConversion::Direct,
            TypeCategory::List => PropertyConversion::Direct,
            TypeCategory::SList => PropertyConversion::Direct,
        }
    }
}

impl Default for PropertyConversion {
    fn default() -> (conversion: PropertyConversion)
        ensures
            conversion == PropertyConversion::Direct,
    {
        PropertyConversion::Direct
    }
}

/// The placeholder literal of a primitive category, for those that have
/// one: `false`, a zero of the category's own width and signedness, no
/// string, a null pointer, the type tag of no type.
pub open spec fn fundamental_default(fund: Fundamental) -> Option<Seq<char>> {
    match fund {
        Fundamental::Boolean => Some("&false"@),
        Fundamental::Int => Some("&0"@),
        Fundamental::UInt => Some("&0u32"@),
        Fundamental::Utf8 => Some("None::<&str>"@),
        Fundamental::Float => Some("&0f32"@),
        Fundamental::Double => Some("&0f64"@),
        Fundamental::Int8 => Some("&0i8"@),
        Fundamental::UInt8 => Some("&0u8"@),
        Fundamental::Int16 => Some("&0i16"@),
        Fundamental::UInt16 => Some("&0u16"@),
        Fundamental::Int32 => Some("&0i32"@),
        Fundamental::UInt32 => Some("&0u32"@),
        Fundamental::Int64 => Some("&0i64"@),
        Fundamental::UInt64 => Some("&0u64"@),
        Fundamental::Char => Some("&0i8"@),
        Fundamental::UChar => Some("&0u8"@),
        Fundamental::Size => Some("&0usize"@),
        Fundamental::SSize => Some("&0isize"@),
        Fundamental::Pointer => Some("::std::ptr::null_mut()"@),
        Fundamental::Type => Some("&gobject_sys::G_TYPE_NONE"@),
        _ => None,
    }
}

/// The literal that stands for a value of the type when a property is read
/// through the generic retrieval call, for the categories that have one.
/// Enumerations and bit flags get an integer zero; objects, records and
/// interfaces the absent reference to their own type.
pub open spec fn default_value_of(type_: TypeInfoView) -> Option<Seq<char>> {
    match type_.category {
        TypeCategory::Fundamental(fund) => fundamental_default(fund),
        TypeCategory::Bitfield => Some("&0u32"@),
        TypeCategory::Enumeration => Some("&0"@),
        TypeCategory::Class | TypeCategory::Record | TypeCategory::Interface => Some(
            "None::<&"@ + type_.type_text() + ">"@,
        ),
        _ => None,
    }
}

/// Computes `fundamental_default`.
fn get_fundamental_default_value(fund: Fundamental) -> (value: Option<String>)
    ensures
        text_view(value) == fundamental_default(fund),
{
    match fund {
        Fundamental::Boolean => Some("&false".to_owned()),
        Fundamental::Int => Some("&0".to_owned()),
        Fundamental::UInt => Some("&0u32".to_owned()),
        Fundamental::Utf8 => Some("None::<&str>".to_owned()),
        Fundamental::Float => Some("&0f32".to_owned()),
        Fundamental::Double => Some("&0f64".to_owned()),
        Fundamental::Int8 => Some("&0i8".to_owned()),
        Fundamental::UInt8 => Some("&0u8".to_owned()),
        Fundamental::Int16 => Some("&0i16".to_owned()),
        Fundamental::UInt16 => Some("&0u16".to_owned()),
        Fundamental::Int32 => Some("&0i32".to_owned()),
        Fundamental::UInt32 => Some("&0u32".to_owned()),
        Fundamental::Int64 => Some("&0i64".to_owned()),
        Fundamental::UInt64 => Some("&0u64".to_owned()),
        Fundamental::Char => Some("&0i8".to_owned()),
        Fundamental::UChar => Some("&0u8".to_owned()),
        Fundamental::Size => Some("&0usize".to_owned()),
        Fundamental::SSize => Some("&0isize".to_owned()),
        Fundamental::Pointer => Some("::std::ptr::null_mut()".to_owned()),
        Fundamental::Type => Some("&gobject_sys::G_TYPE_NONE".to_owned()),
        Fundamental::Void => None,
        Fundamental::Short => None,
        Fundamental::UShort => None,
        Fundamental::Long => None,
        Fundamental::ULong => None,
        Fundamental::VarArgs => None,
        Fundamental::UniChar => None,
        Fundamental::Filename => None,
        Fundamental::Unsupported => None,
    }
}

/// The text written for the type: the one text that `rendered` holds.
fn type_text(type_: &TypeInfo) -> (text: &str)
    ensures
        text@ == type_@.type_text(),
{
    match &type_.rendered {
        Ok(s) => s.as_str(),
        Err(s) => s.as_str(),
    }
}

/// Computes `default_value_of`.
pub fn get_type_default_value(type_: &TypeInfo) -> (value: Option<String>)
    ensures
        text_view(value) == default_value_of(type_@),
{
    match type_.category {
        TypeCategory::Fundamental(fund) => get_fundamental_default_value(fund),
        TypeCategory::Bitfield => Some("&0u32".to_owned()),
        TypeCategory::Enumeration => Some("&0".to_owned()),
        TypeCategory::Class => Some(join3("None::<&", type_text(type_), ">")),
        TypeCategory::Record => Some(join3("None::<&", type_text(type_), ">")),
        TypeCategory::Interface => Some(join3("None::<&", type_text(type_), ">")),
        TypeCategory::Alias => None,
        TypeCategory::Union => None,
        TypeCategory::Function => None,
        TypeCategory::Custom => None,
        TypeCategory::Array => None,
        TypeCategory::CArray => None,
        TypeCategory::FixedArray => None,
        TypeCategory::PtrArray => None,
        TypeCategory::HashTable => None,
        TypeCategory::List => None,
        TypeCategory::SList => None,
    }
}

/// What the emitter needs to write one accessor of a property.
#[derive(Debug)]
pub struct Property {
    pub name: String,
    /// The name of the value parameter. Empty for a getter.
    pub var_name: String,
    pub typ: TypeId,
    /// A getter if `true`, a setter if not.
    pub is_get: bool,
    pub func_name: String,
    pub nullable: bool,
    pub conversion: PropertyConversion,
    /// The literal that gives the generic retrieval call its type. Only a
    /// getter has one.
    pub default_value: Option<String>,
    pub get_out_ref_mode: RefMode,
    pub set_in_ref_mode: RefMode,
    pub version: Option<Version>,
    pub deprecated_version: Option<Version>,
    /// Only a setter can have one.
    pub bound: Option<Bound>,
}

/// The mathematical value of a `Property`.
pub struct PropertyView {
    pub name: Seq<char>,
    pub var_name: Seq<char>,
    pub typ: TypeId,
    pub is_get: bool,
    pub func_name: Seq<char>,
    pub nullable: bool,
    pub conversion: PropertyConversion,
    pub default_value: Option<Seq<char>>,
    pub get_out_ref_mode: RefMode,
    pub set_in_ref_mode: RefMode,
    pub version: Option<Version>,
    pub deprecated_version: Option<Version>,
    pub bound: Option<BoundView>,
}

impl View for Property {
    type V = PropertyView;

    open spec fn view(&self) -> PropertyView {
        PropertyView {
            name: self.name@,
            var_name: self.var_name@,
            typ: self.typ,
            is_get: self.is_get,
            func_name: self.func_name@,
            nullable: self.nullable,
            conversion: self.conversion,
            default_value: text_view(self.default_value),
            get_out_ref_mode: self.get_out_ref_mode,
            set_in_ref_mode: self.set_in_ref_mode,
            version: self.version,
            deprecated_version: self.deprecated_version,
            bound: bound_view(self.bound),
        }
    }
}

/// The view of an optional accessor.
pub open spec fn property_view(property: Option<Property>) -> Option<PropertyView> {
    match property {
        Some(p) => Some(p@),
        None => None,
    }
}

/// The views of a list of accessors, in order.
pub open spec fn property_views(properties: Seq<Property>) -> Seq<PropertyView> {
    properties.map_values(|p: Property| p@)
}

/// The notice that a readable property gets no getter because its type has
/// no default value.
#[derive(Debug)]
pub struct Diagnostic {
    pub property: String,
    /// The type that owns the property, as the emitter writes it.
    pub owner: String,
}

/// The mathematical value of a `Diagnostic`.
pub struct DiagnosticView {
    pub property: Seq<char>,
    pub owner: Seq<char>,
}

impl View for Diagnostic {
    type V = DiagnosticView;

    open spec fn view(&self) -> DiagnosticView {
        DiagnosticView { property: self.property@, owner: self.owner@ }
    }
}

impl DiagnosticView {
    /// The notice in words.
    pub open spec fn message(self) -> Seq<char> {
        "No default value for getter of property `"@ + self.property + "` for `"@ + self.owner
            + "`"@
    }
}

impl Diagnostic {
    /// The notice in words, naming the property and its owner.
    pub fn message(&self) -> (text: String)
        ensures
            text@ == self@.message(),
    {
        let mut text = join3(
            "No default value for getter of property `",
            self.property.as_str(),
            "` for `",
        );
        text.append(self.owner.as_str());
        text.append("`");
        text
    }
}

/// The view of an optional notice.
pub open spec fn diagnostic_view(diagnostic: Option<Diagnostic>) -> Option<DiagnosticView> {
    match diagnostic {
        Some(d) => Some(d@),
        None => None,
    }
}

/// The views of a list of notices, in order.
pub open spec fn diagnostic_views(diagnostics: Seq<Diagnostic>) -> Seq<DiagnosticView> {
    diagnostics.map_values(|d: Diagnostic| d@)
}

/// What the analysis of one property gives.
#[derive(Debug)]
pub struct PropertyAnalysis {
    pub getter: Option<Property>,
    pub setter: Option<Property>,
    pub notify_signal: Option<Info>,
    pub diagnostic: Option<Diagnostic>,
}

/// What the analysis of a type's properties gives.
#[derive(Debug)]
pub struct Analysis {
    /// The accessors, property by property in the order of the input, a
    /// property's getter before its setter.
    pub properties: Vec<Property>,
    /// The signal bindings, in the order of the input.
    pub notify_signals: Vec<Info>,
    /// The notices, in the order of the input.
    pub diagnostics: Vec<Diagnostic>,
}

/// The mathematical value of an `Analysis`.
pub struct AnalysisView {
    pub properties: Seq<PropertyView>,
    pub notify_signals: Seq<InfoView>,
    pub diagnostics: Seq<DiagnosticView>,
}

impl View for Analysis {
    type V = AnalysisView;

    open spec fn view(&self) -> AnalysisView {
        AnalysisView {
            properties: property_views(self.properties@),
            notify_signals: info_views(self.notify_signals@),
            diagnostics: diagnostic_views(self.diagnostics@),
        }
    }
}

/// Asks `imports` for one more symbol, and keeps count of what was asked
/// since `base`.
fn require(
    imports: &mut Imports,
    name: &str,
    version: Option<Version>,
    Ghost(base): Ghost<Seq<Requirement>>,
    Ghost(asked): Ghost<Seq<Requirement>>,
) -> (now: Ghost<Seq<Requirement>>)
    requires
        old(imports)@ == with_requirements(base, asked),
    ensures
        now@ == asked.push(request_of(name@, version)),
        final(imports)@ == with_requirements(base, now@),
{
    imports.add(name, version);
    proof {
        assert(asked.push(request_of(name@, version)).drop_last() =~= asked);
    }
    Ghost(asked.push(request_of(name@, version)))
}

/// Whether a property is to have a getter and a setter, and the version
/// from which its bindings are offered.
#[derive(Clone, Copy, Debug, PartialEq, Eq, Structural)]
pub struct Eligibility {
    pub readable: bool,
    pub writable: bool,
    pub version: Option<Version>,
}

/// Whether the property gets no binding of any kind.
pub fn is_skipped(env: &Env, prop: &library::Property, configured: &[PropertyOverride]) -> (r:
    bool)
    ensures
        r == (any_ignored(configured@) || env.totally_deprecated(prop.deprecated_version)),
{
    is_ignored(configured) || env.is_totally_deprecated(prop.deprecated_version)
}

/// Decides whether a property is to have a getter and a setter, as far as
/// its declaration, its configuration and the functions written by hand
/// decide, and finds the version in effect. `None` for a property that gets
/// no binding of any kind.
pub fn eligibility(env: &Env, input: &PropertyInput) -> (eligible: Option<Eligibility>)
    ensures
        eligible == input@.eligibility(*env),
{
    if is_skipped(env, &input.prop, input.configured.as_slice()) {
        return None;
    }
    let prop = &input.prop;
    let version = version_in_effect(input.configured.as_slice(), prop.version);
    let mut readable = prop.readable;
    let mut writable = if prop.construct_only {
        false
    } else {
        prop.writable
    };
    if readable && input.manual_getter.suppresses(env, version) {
        readable = false;
    }
    if writable && input.manual_setter.suppresses(env, version) {
        writable = false;
    }
    Some(Eligibility { readable, writable, version })
}

/// The signal to hand to the trampoline synthesizer for a property: named
/// after the property, without parameters and without a result, from the
/// version in effect on. `None` for a property that gets no binding, for
/// which nothing is to be synthesized.
pub fn notify_signal(env: &Env, input: &PropertyInput) -> (signal: Option<Signal>)
    ensures
        match signal {
            Some(s) => Some(s@),
            None => None,
        } == input@.signal(*env),
{
    if is_skipped(env, &input.prop, input.configured.as_slice()) {
        None
    } else {
        Some(
            Signal {
                name: join("notify::", input.prop.name.as_str()),
                parameters: Vec::new(),
                ret: None,
                version: version_in_effect(input.configured.as_slice(), input.prop.version),
                deprecated_version: input.prop.deprecated_version,
            },
        )
    }
}

/// Analyses one property: decides whether it gets a getter, a setter and a
/// signal binding, works out what each of them needs, and asks `imports`
/// for the symbols of the signal binding.
pub fn analyze_property(
    env: &Env,
    input: &PropertyInput,
    owner_name: &str,
    generate_trait: bool,
    imports: &mut Imports,
) -> (res: PropertyAnalysis)
    ensures
        property_view(res.getter) == input@.getter(*env),
        property_view(res.setter) == input@.setter(*env),
        info_view(res.notify_signal) == input@.notify_signal(*env),
        diagnostic_view(res.diagnostic) == input@.diagnostic(*env, owner_name@),
        final(imports)@ == with_requirements(
            old(imports)@,
            input@.signal_requirements(*env, generate_trait),
        ),
{
    let (mut readable, writable, prop_version) = match eligibility(env, input) {
        Some(eligible) => (eligible.readable, eligible.writable, eligible.version),
        None => {
            return PropertyAnalysis {
                getter: None,
                setter: None,
                notify_signal: None,
                diagnostic: None,
            };
        },
    };
    let prop = &input.prop;
    let default_value = get_type_default_value(&input.type_);
    let mut diagnostic: Option<Diagnostic> = None;
    if default_value.is_none() && readable {
        readable = false;
        diagnostic = Some(Diagnostic { property: prop.name.clone(), owner: owner_name.to_owned() });
    }
    let conversion = PropertyConversion::of(&input.type_.category);
    let get_out_ref_mode = input.type_.return_mode;
    let set_in_ref_mode = input.type_.in_mode.for_setter_input();
    let nullable = set_in_ref_mode.is_ref();

    let getter = if readable {
        Some(
            Property {
                name: prop.name.clone(),
                var_name: String::new(),
                typ: prop.typ,
                is_get: true,
                func_name: join("get_property_", input.name_for_func.as_str()),
                nullable,
                conversion,
                default_value,
                get_out_ref_mode,
                set_in_ref_mode,
                version: prop_version,
                deprecated_version: prop.deprecated_version,
                bound: None,
            },
        )
    } else {
        None
    };

    let setter = if writable {
        let bound = Bound::get_for_property_setter(
            input.var_name.as_str(),
            prop.typ,
            &input.type_.category,
            nullable,
        );
        Some(
            Property {
                name: prop.name.clone(),
                var_name: input.var_name.clone(),
                typ: prop.typ,
                is_get: false,
                func_name: join("set_property_", input.name_for_func.as_str()),
                nullable,
                conversion,
                default_value: None,
                get_out_ref_mode,
                set_in_ref_mode,
                version: prop_version,
                deprecated_version: prop.deprecated_version,
                bound,
            },
        )
    } else {
        None
    };

    let notify_signal = match &input.trampoline {
        Some(trampoline_name) => {
            let ghost base = imports@;
            let mut asked: Ghost<Seq<Requirement>> = Ghost(Seq::empty());
            if generate_trait {
                asked = require(imports, "glib", prop_version, Ghost(base), asked);
                asked = require(imports, "glib::object::Downcast", prop_version, Ghost(base), asked);
            }
            asked = require(imports, "glib::signal::connect", prop_version, Ghost(base), asked);
            asked =
            require(imports, "glib::signal::SignalHandlerId", prop_version, Ghost(base), asked);
            asked = require(imports, "std::mem::transmute", prop_version, Ghost(base), asked);
            asked = require(imports, "std::boxed::Box as Box_", prop_version, Ghost(base), asked);
            proof {
                assert(asked@ =~= input@.signal_requirements(*env, generate_trait));
            }
            Some(
                Info {
                    connect_name: join3(
                        "connect_property_",
                        input.name_for_func.as_str(),
                        "_notify",
                    ),
                    signal_name: join("notify::", prop.name.as_str()),
                    trampoline_name: trampoline_name.clone(),
                    version: prop_version,
                    deprecated_version: prop.deprecated_version,
                    doc_hidden: false,
                },
            )
        },
        None => None,
    };

    PropertyAnalysis { getter, setter, notify_signal, diagnostic }
}

/// Asks `imports` for what a getter needs.
fn require_for_getter(
    imports: &mut Imports,
    type_: &TypeInfo,
    getter: &Option<Property>,
    Ghost(base): Ghost<Seq<Requirement>>,
    Ghost(asked): Ghost<Seq<Requirement>>,
) -> (now: Ghost<Seq<Requirement>>)
    requires
        old(imports)@ == with_requirements(base, asked),
    ensures
        now@ == asked + (match property_view(*getter) {
            Some(g) => getter_requirements(type_@, g),
            None => Seq::empty(),
        }),
        final(imports)@ == with_requirements(base, now@),
{
    let mut now = Ghost(asked);
    if let Some(getter) = getter {
        if let Some(name) = &type_.import_name {
            now = require(imports, name.as_str(), getter.version, Ghost(base), now);
        }
        if getter.conversion != PropertyConversion::Direct {
            now = require(imports, "std::mem::transmute", getter.version, Ghost(base), now);
        }
        if getter.default_value.is_some() {
            now = require(imports, "glib::Value", getter.version, Ghost(base), now);
        }
        proof {
            assert(now@ =~= asked + getter_requirements(type_@, getter@));
        }
    } else {
        proof {
            assert(asked =~= asked + Seq::<Requirement>::empty());
        }
    }
    now
}

/// Asks `imports` for what a setter needs.
fn require_for_setter(
    imports: &mut Imports,
    type_: &TypeInfo,
    setter: &Option<Property>,
    Ghost(base): Ghost<Seq<Requirement>>,
    Ghost(asked): Ghost<Seq<Requirement>>,
) -> (now: Ghost<Seq<Requirement>>)
    requires
        old(imports)@ == with_requirements(base, asked),
    ensures
        now@ == asked + (match property_view(*setter) {
            Some(s) => setter_requirements(type_@, s),
            None => Seq::empty(),
        }),
        final(imports)@ == with_requirements(base, now@),
{
    let mut now = Ghost(asked);
    if let Some(setter) = setter {
        if let Some(name) = &type_.import_name {
            now = require(imports, name.as_str(), setter.version, Ghost(base), now);
        }
        if type_.rendered.is_ok() {
            now = require(imports, "glib::Value", setter.version, Ghost(base), now);
        }
        if setter.bound.is_some() {
            now = require(imports, "glib", setter.version, Ghost(base), now);
            now = require(imports, "glib::object::IsA", setter.version, Ghost(base), now);
        }
        proof {
            assert(now@ =~= asked + setter_requirements(type_@, setter@));
        }
    } else {
        proof {
            assert(asked =~= asked + Seq::<Requirement>::empty());
        }
    }
    now
}

/// Appends what `found` holds to `list`.
fn push_property(list: &mut Vec<Property>, found: Option<Property>)
    ensures
        property_views(final(list)@) == property_views(old(list)@) + held(property_view(found)),
{
    if let Some(property) = found {
        list.push(property);
    }
    proof {
        assert(property_views(list@) =~= property_views(old(list)@) + held(property_view(found)));
    }
}

/// Appends what `found` holds to `list`.
fn push_signal(list: &mut Vec<Info>, found: Option<Info>)
    ensures
        info_views(final(list)@) == info_views(old(list)@) + held(info_view(found)),
{
    if let Some(info) = found {
        list.push(info);
    }
    proof {
        assert(info_views(list@) =~= info_views(old(list)@) + held(info_view(found)));
    }
}

/// Appends what `found` holds to `list`.
fn push_diagnostic(list: &mut Vec<Diagnostic>, found: Option<Diagnostic>)
    ensures
        diagnostic_views(final(list)@) == diagnostic_views(old(list)@) + held(
            diagnostic_view(found),
        ),
{
    if let Some(diagnostic) = found {
        list.push(diagnostic);
    }
    proof {
        assert(diagnostic_views(list@) =~= diagnostic_views(old(list)@) + held(
            diagnostic_view(found),
        ));
    }
}

/// Appending one after the other gives the same as appending all at once.
proof fn concat_is_associative<T>(a: Seq<T>, b: Seq<T>, c: Seq<T>, d: Seq<T>)
    ensures
        a + b + c + d == a + (b + c + d),
{
    assert(a + b + c + d =~= a + (b + c + d));
}

/// One more property adds what it gives to the end of what those before
/// it gave.
proof fn analysis_step(
    env: Env,
    inputs: Seq<PropertyInputView>,
    i: int,
    owner: Seq<char>,
    generate_trait: bool,
)
    requires
        0 <= i < inputs.len(),
    ensures
        analysis_of(env, inputs.take(i + 1), owner).properties == analysis_of(
            env,
            inputs.take(i),
            owner,
        ).properties + held(inputs[i].getter(env)) + held(inputs[i].setter(env)),
        analysis_of(env, inputs.take(i + 1), owner).notify_signals == analysis_of(
            env,
            inputs.take(i),
            owner,
        ).notify_signals + held(inputs[i].notify_signal(env)),
        analysis_of(env, inputs.take(i + 1), owner).diagnostics == analysis_of(
            env,
            inputs.take(i),
            owner,
        ).diagnostics + held(inputs[i].diagnostic(env, owner)),
        requirements_of(env, inputs.take(i + 1), generate_trait) == requirements_of(
            env,
            inputs.take(i),
            generate_trait,
        ) + inputs[i].requirements(env, generate_trait),
{
    assert(inputs.take(i + 1).drop_last() =~= inputs.take(i));
    assert(inputs.take(i + 1).last() == inputs[i]);
}

/// Analyses the properties of one type, in the order given. Gives the
/// accessors, the signal bindings and the notices, and asks `imports` for
/// every symbol that the bindings need.
pub fn analyze(
    env: &Env,
    props: &[PropertyInput],
    owner_name: &str,
    generate_trait: bool,
    imports: &mut Imports,
) -> (res: Analysis)
    ensures
        res@ == analysis_of(*env, input_views(props@), owner_name@),
        final(imports)@ == with_requirements(
            old(imports)@,
            requirements_of(*env, input_views(props@), generate_trait),
        ),
{
    let mut properties: Vec<Property> = Vec::new();
    let mut notify_signals: Vec<Info> = Vec::new();
    let mut diagnostics: Vec<Diagnostic> = Vec::new();
    let ghost base = imports@;
    let ghost inputs = input_views(props@);
    let mut asked: Ghost<Seq<Requirement>> = Ghost(Seq::empty());

    let mut i: usize = 0;
    while i < props.len()
        invariant
            i <= props.len(),
            inputs == input_views(props@),
            imports@ == with_requirements(base, asked@),
            asked@ == requirements_of(*env, inputs.take(i as int), generate_trait),
            property_views(properties@) == analysis_of(
                *env,
                inputs.take(i as int),
                owner_name@,
            ).properties,
            info_views(notify_signals@) == analysis_of(
                *env,
                inputs.take(i as int),
                owner_name@,
            ).notify_signals,
            diagnostic_views(diagnostics@) == analysis_of(
                *env,
                inputs.take(i as int),
                owner_name@,
            ).diagnostics,
        decreases props.len() - i,
    {
        let input = &props[i];
        let ghost asked_before = asked@;
        proof {
            analysis_step(*env, inputs, i as int, owner_name@, generate_trait);
            assert(inputs[i as int] == input@);
        }

        let analysis = analyze_property(env, input, owner_name, generate_trait, imports);
        proof {
            with_requirements_concat(
                base,
                asked@,
                input@.signal_requirements(*env, generate_trait),
            );
            asked@ = asked@ + input@.signal_requirements(*env, generate_trait);
        }
        let PropertyAnalysis { getter, setter, notify_signal, diagnostic } = analysis;
        push_signal(&mut notify_signals, notify_signal);
        push_diagnostic(&mut diagnostics, diagnostic);

        let ghost for_getter = match property_view(getter) {
            Some(g) => getter_requirements(input@.type_, g),
            None => Seq::empty(),
        };
        let ghost for_setter = match property_view(setter) {
            Some(s) => setter_requirements(input@.type_, s),
            None => Seq::empty(),
        };
        asked = require_for_getter(imports, &input.type_, &getter, Ghost(base), asked);
        push_property(&mut properties, getter);
        asked = require_for_setter(imports, &input.type_, &setter, Ghost(base), asked);
        push_property(&mut properties, setter);
        proof {
            concat_is_associative(
                asked_before,
                input@.signal_requirements(*env, generate_trait),
                for_getter,
                for_setter,
            );
        }
        i += 1;
    }
    proof {
        assert(inputs.take(i as int) =~= inputs);
    }
    Analysis { properties, notify_signals, diagnostics }
}

} // verus!
