//! What holds of every analysis, whatever the properties.

use crate::config::{any_ignored, least_version, least_version_is_minimum};
use crate::env::Env;
use crate::imports::{
    repeated_requests_change_nothing, request_of, with_requirements, Requirement,
};
use crate::input::{PropertyInputView, TypeInfoView};
use crate::model::{
    analysis_of, getter_requirements, held, requirements_of, setter_requirements,
    type_requirement,
};
use crate::properties::{default_value_of, PropertyConversion, PropertyView};
use crate::ref_mode::RefMode;
use crate::version::{version_le, Version};
use vstd::prelude::*;

verus! {

/// A property that can only be set at construction gets no setter, whether
/// or not it is declared writable.
pub proof fn construct_only_gets_no_setter(env: Env, input: PropertyInputView)
    requires
        input.prop.construct_only,
    ensures
        input.setter(env) is None,
{
}

/// A property whose type has no default value gets no getter, whether or
/// not it is readable.
pub proof fn no_default_value_gets_no_getter(env: Env, input: PropertyInputView)
    requires
        default_value_of(input.type_) is None,
    ensures
        input.getter(env) is None,
{
}

/// A property that a configuration record asks to ignore gets no getter,
/// no setter and no signal binding; nothing is asked for on its behalf and
/// no notice is given.
pub proof fn ignored_gets_nothing(
    env: Env,
    input: PropertyInputView,
    owner: Seq<char>,
    generate_trait: bool,
)
    requires
        any_ignored(input.configured),
    ensures
        input.getter(env) is None,
        input.setter(env) is None,
        input.notify_signal(env) is None,
        input.signal(env) is None,
        input.diagnostic(env, owner) is None,
        input.requirements(env, generate_trait) == Seq::<Requirement>::empty(),
{
    assert(input.requirements(env, generate_trait) =~= Seq::<Requirement>::empty());
}

/// Every binding of a property carries the version in effect for it.
pub proof fn bindings_carry_the_version_in_effect(env: Env, input: PropertyInputView)
    ensures
        input.getter(env) matches Some(getter) ==> getter.version == input.version(),
        input.setter(env) matches Some(setter) ==> setter.version == input.version(),
        input.notify_signal(env) matches Some(signal) ==> signal.version == input.version(),
{
}

/// No binding of a property has a version before the declared one, where
/// no configuration record states a version before the declared one.
pub proof fn version_is_not_below_declared(env: Env, input: PropertyInputView)
    requires
        (forall|i: int|
            0 <= i < input.configured.len() ==> ((#[trigger] input.configured[i]).version matches Some(
                v,
            ) ==> version_le(input.prop.version, Some(v)))) || (input.getter(env) is None
            && input.setter(env) is None && input.notify_signal(env) is None),
    ensures
        input.getter(env) matches Some(getter) ==> version_le(input.prop.version, getter.version),
        input.setter(env) matches Some(setter) ==> version_le(input.prop.version, setter.version),
        input.notify_signal(env) matches Some(signal) ==> version_le(
            input.prop.version,
            signal.version,
        ),
{
    least_version_is_minimum(input.configured);
    match least_version(input.configured) {
        Some(m) => {
            let i = choose|i: int|
                0 <= i < input.configured.len() && (#[trigger] input.configured[i]).version == Some(
                    m,
                );
            if !(input.getter(env) is None && input.setter(env) is None && input.notify_signal(env)
                is None) {
                assert(version_le(input.prop.version, Some(m)));
            }
        },
        None => {},
    }
}

/// Where a configuration record states a version before the declared one,
/// the version in effect is before the declared one, and so is the version
/// of every binding that the property gets.
pub proof fn earlier_configured_version_lowers(env: Env, input: PropertyInputView, i: int)
    requires
        0 <= i < input.configured.len(),
        input.configured[i].version is Some,
        !version_le(input.prop.version, input.configured[i].version),
    ensures
        !version_le(input.prop.version, input.version()),
        input.getter(env) matches Some(getter) ==> !version_le(input.prop.version, getter.version),
        input.setter(env) matches Some(setter) ==> !version_le(input.prop.version, setter.version),
        input.notify_signal(env) matches Some(signal) ==> !version_le(
            input.prop.version,
            signal.version,
        ),
{
    least_version_is_minimum(input.configured);
}

/// A getter written by hand that is there at the version in effect, or
/// before, takes the place of the generated getter, readable or not. The
/// same holds of a setter.
pub proof fn manual_accessor_takes_precedence(env: Env, input: PropertyInputView)
    ensures
        input.manual_getter.found && version_le(input.manual_getter.version, input.version())
            ==> input.getter(env) is None,
        input.manual_setter.found && version_le(input.manual_setter.version, input.version())
            ==> input.setter(env) is None,
{
}

/// No accessor takes the new value by mutable reference: where the type by
/// itself would be passed so, it is taken by shared reference; any other
/// mode stays.
pub proof fn setter_input_is_never_mutable(env: Env, input: PropertyInputView)
    ensures
        input.setter(env) matches Some(setter) ==> {
            &&& setter.set_in_ref_mode != RefMode::ByRefMut
            &&& input.type_.in_mode == RefMode::ByRefMut ==> setter.set_in_ref_mode
                == RefMode::ByRef
            &&& input.type_.in_mode != RefMode::ByRefMut ==> setter.set_in_ref_mode
                == input.type_.in_mode
            &&& setter.nullable == (setter.set_in_ref_mode != RefMode::ByValue)
        },
        input.getter(env) matches Some(getter) ==> getter.set_in_ref_mode != RefMode::ByRefMut,
{
}

/// Only a getter has a default value and only a setter can have a bound; a
/// setter has a bound exactly where its type is an object or an interface.
pub proof fn getter_and_setter_differ(env: Env, input: PropertyInputView)
    ensures
        input.getter(env) matches Some(getter) ==> getter.is_get && getter.default_value is Some
            && getter.bound is None,
        input.setter(env) matches Some(setter) ==> !setter.is_get && setter.default_value is None
            && (setter.bound is Some <==> input.type_.category.is_object_like()),
{
}

/// A property gets its signal binding whether or not it gets a getter or a
/// setter: the binding depends on the synthesis of the trampoline alone.
pub proof fn signal_is_independent_of_accessors(env: Env, input: PropertyInputView)
    requires
        !input.skipped(env),
    ensures
        input.notify_signal(env) is Some <==> input.trampoline is Some,
{
}

/// Appending is associative, and appending nothing changes nothing.
proof fn concat_facts<T>(a: Seq<T>, b: Seq<T>, c: Seq<T>, d: Seq<T>)
    ensures
        a + b + c == a + (b + c),
        a + b + c + d == a + (b + c + d),
        a + Seq::<T>::empty() == a,
{
    assert(a + b + c =~= a + (b + c));
    assert(a + b + c + d =~= a + (b + c + d));
    assert(a + Seq::<T>::empty() =~= a);
}

/// The accessors of a list are those of its front part followed by those
/// of its back part: what a property gives does not depend on the
/// properties around it, and the output keeps the order of the input.
pub proof fn accessors_keep_order(
    env: Env,
    front: Seq<PropertyInputView>,
    back: Seq<PropertyInputView>,
    owner: Seq<char>,
)
    ensures
        analysis_of(env, front + back, owner).properties == analysis_of(
            env,
            front,
            owner,
        ).properties + analysis_of(env, back, owner).properties,
    decreases back.len(),
{
    let f = analysis_of(env, front, owner).properties;
    if back.len() == 0 {
        assert(front + back =~= front);
        concat_facts(f, f, f, f);
    } else {
        accessors_keep_order(env, front, back.drop_last(), owner);
        assert((front + back).drop_last() =~= front + back.drop_last());
        assert((front + back).last() == back.last());
        concat_facts(
            f,
            analysis_of(env, back.drop_last(), owner).properties,
            held(back.last().getter(env)),
            held(back.last().setter(env)),
        );
    }
}

/// The signal bindings of a list are those of its front part followed by
/// those of its back part.
pub proof fn signals_keep_order(
    env: Env,
    front: Seq<PropertyInputView>,
    back: Seq<PropertyInputView>,
    owner: Seq<char>,
)
    ensures
        analysis_of(env, front + back, owner).notify_signals == analysis_of(
            env,
            front,
            owner,
        ).notify_signals + analysis_of(env, back, owner).notify_signals,
    decreases back.len(),
{
    let f = analysis_of(env, front, owner).notify_signals;
    if back.len() == 0 {
        assert(front + back =~= front);
        concat_facts(f, f, f, f);
    } else {
        signals_keep_order(env, front, back.drop_last(), owner);
        assert((front + back).drop_last() =~= front + back.drop_last());
        assert((front + back).last() == back.last());
        concat_facts(
            f,
            analysis_of(env, back.drop_last(), owner).notify_signals,
            held(back.last().notify_signal(env)),
            f,
        );
    }
}

/// The notices of a list are those of its front part followed by those of
/// its back part.
pub proof fn diagnostics_keep_order(
    env: Env,
    front: Seq<PropertyInputView>,
    back: Seq<PropertyInputView>,
    owner: Seq<char>,
)
    ensures
        analysis_of(env, front + back, owner).diagnostics == analysis_of(
            env,
            front,
            owner,
        ).diagnostics + analysis_of(env, back, owner).diagnostics,
    decreases back.len(),
{
    let f = analysis_of(env, front, owner).diagnostics;
    if back.len() == 0 {
        assert(front + back =~= front);
        concat_facts(f, f, f, f);
    } else {
        diagnostics_keep_order(env, front, back.drop_last(), owner);
        assert((front + back).drop_last() =~= front + back.drop_last());
        assert((front + back).last() == back.last());
        concat_facts(
            f,
            analysis_of(env, back.drop_last(), owner).diagnostics,
            held(back.last().diagnostic(env, owner)),
            f,
        );
    }
}

/// The symbols asked for a list are those asked for its front part
/// followed by those asked for its back part.
pub proof fn requirements_keep_order(
    env: Env,
    front: Seq<PropertyInputView>,
    back: Seq<PropertyInputView>,
    generate_trait: bool,
)
    ensures
        requirements_of(env, front + back, generate_trait) == requirements_of(
            env,
            front,
            generate_trait,
        ) + requirements_of(env, back, generate_trait),
    decreases back.len(),
{
    let f = requirements_of(env, front, generate_trait);
    if back.len() == 0 {
        assert(front + back =~= front);
        concat_facts(f, f, f, f);
    } else {
        requirements_keep_order(env, front, back.drop_last(), generate_trait);
        assert((front + back).drop_last() =~= front + back.drop_last());
        assert((front + back).last() == back.last());
        concat_facts(
            f,
            requirements_of(env, back.drop_last(), generate_trait),
            back.last().requirements(env, generate_trait),
            f,
        );
    }
}

/// What an accessor asks for, each from the accessor's own version on: a
/// getter with a default value asks for the generic value container, and
/// one whose value is converted asks for transmuting; a setter with a bound
/// asks for the object system and for the bound's trait.
pub proof fn accessors_ask_for_their_symbols(type_: TypeInfoView, accessor: PropertyView)
    ensures
        accessor.default_value is Some ==> getter_requirements(type_, accessor).contains(
            request_of("glib::Value"@, accessor.version),
        ),
        accessor.conversion != PropertyConversion::Direct ==> getter_requirements(
            type_,
            accessor,
        ).contains(request_of("std::mem::transmute"@, accessor.version)),
        accessor.bound is Some ==> setter_requirements(type_, accessor).contains(
            request_of("glib"@, accessor.version),
        ) && setter_requirements(type_, accessor).contains(
            request_of("glib::object::IsA"@, accessor.version),
        ),
{
    let for_getter = getter_requirements(type_, accessor);
    let for_setter = setter_requirements(type_, accessor);
    let for_type = type_requirement(type_, accessor.version);
    if accessor.default_value is Some {
        assert(for_getter[for_getter.len() - 1] == request_of("glib::Value"@, accessor.version));
    }
    if accessor.conversion != PropertyConversion::Direct {
        assert(for_getter[for_type.len() as int] == request_of(
            "std::mem::transmute"@,
            accessor.version,
        ));
    }
    if accessor.bound is Some {
        assert(for_setter[for_setter.len() - 2] == request_of("glib"@, accessor.version));
        assert(for_setter[for_setter.len() - 1] == request_of(
            "glib::object::IsA"@,
            accessor.version,
        ));
    }
}

/// Every getter asks for the generic value container from its own version
/// on, whether or not its type can be written.
pub proof fn getter_asks_for_the_value_container(
    env: Env,
    input: PropertyInputView,
    generate_trait: bool,
)
    ensures
        input.getter(env) matches Some(getter) ==> input.requirements(env, generate_trait).contains(
            request_of("glib::Value"@, getter.version),
        ),
{
    if input.getter(env) is Some {
        let getter = input.getter(env)->0;
        accessors_ask_for_their_symbols(input.type_, getter);
        let wanted = request_of("glib::Value"@, getter.version);
        let for_signal = input.signal_requirements(env, generate_trait);
        let for_getter = getter_requirements(input.type_, getter);
        let i = choose|i: int| 0 <= i < for_getter.len() && for_getter[i] == wanted;
        assert(input.requirements(env, generate_trait)[for_signal.len() + i] == wanted);
    }
}

/// A property gives at most one getter and one setter, at most one signal
/// binding and at most one notice.
pub proof fn analysis_is_bounded(env: Env, inputs: Seq<PropertyInputView>, owner: Seq<char>)
    ensures
        analysis_of(env, inputs, owner).properties.len() <= 2 * inputs.len(),
        analysis_of(env, inputs, owner).notify_signals.len() <= inputs.len(),
        analysis_of(env, inputs, owner).diagnostics.len() <= inputs.len(),
    decreases inputs.len(),
{
    if inputs.len() > 0 {
        analysis_is_bounded(env, inputs.drop_last(), owner);
    }
}

/// A property that gets a notice gets no getter: the notice tells that the
/// getter was left out.
pub proof fn notice_stands_for_a_missing_getter(
    env: Env,
    input: PropertyInputView,
    owner: Seq<char>,
)
    ensures
        input.diagnostic(env, owner) is Some ==> input.getter(env) is None && input.prop.readable,
        input.diagnostic(env, owner) matches Some(notice) ==> notice.property == input.prop.name
            && notice.owner == owner,
{
}

/// Analysing the same properties a second time leaves the required
/// symbols as the first analysis left them.
pub proof fn second_analysis_asks_for_nothing_new(
    env: Env,
    inputs: Seq<PropertyInputView>,
    generate_trait: bool,
    known: Seq<Requirement>,
)
    ensures
        with_requirements(
            with_requirements(known, requirements_of(env, inputs, generate_trait)),
            requirements_of(env, inputs, generate_trait),
        ) == with_requirements(known, requirements_of(env, inputs, generate_trait)),
{
    repeated_requests_change_nothing(known, requirements_of(env, inputs, generate_trait));
}

/// `accessor` is the getter or the setter of `input`.
pub open spec fn is_accessor_of(env: Env, input: PropertyInputView, accessor: PropertyView)
    -> bool {
    input.getter(env) == Some(accessor) || input.setter(env) == Some(accessor)
}

/// Every accessor that an analysis gives is the getter or the setter of
/// one of the properties, and every signal binding the binding of one of
/// them.
pub proof fn bindings_have_a_source(env: Env, inputs: Seq<PropertyInputView>, owner: Seq<char>)
    ensures
        forall|k: int|
            0 <= k < analysis_of(env, inputs, owner).properties.len() ==> exists|i: int|
                0 <= i < inputs.len() && is_accessor_of(
                    env,
                    #[trigger] inputs[i],
                    #[trigger] analysis_of(env, inputs, owner).properties[k],
                ),
        forall|k: int|
            0 <= k < analysis_of(env, inputs, owner).notify_signals.len() ==> exists|i: int|
                0 <= i < inputs.len() && (#[trigger] inputs[i]).notify_signal(env) == Some(
                    #[trigger] analysis_of(env, inputs, owner).notify_signals[k],
                ),
    decreases inputs.len(),
{
    if inputs.len() > 0 {
        let init = inputs.drop_last();
        let last = inputs.last();
        bindings_have_a_source(env, init, owner);
        let all = analysis_of(env, inputs, owner);
        let before = analysis_of(env, init, owner);
        assert forall|k: int| 0 <= k < all.properties.len() implies exists|i: int|
            0 <= i < inputs.len() && is_accessor_of(
                env,
                #[trigger] inputs[i],
                #[trigger] all.properties[k],
            ) by {
            if k < before.properties.len() {
                assert(all.properties[k] == before.properties[k]);
                let i = choose|i: int|
                    0 <= i < init.len() && is_accessor_of(
                        env,
                        #[trigger] init[i],
                        before.properties[k],
                    );
                assert(inputs[i] == init[i]);
                assert(is_accessor_of(env, inputs[i], all.properties[k]));
            } else {
                assert(inputs[inputs.len() - 1] == last);
                assert(is_accessor_of(env, inputs[inputs.len() - 1], all.properties[k]));
            }
        }
        assert forall|k: int| 0 <= k < all.notify_signals.len() implies exists|i: int|
            0 <= i < inputs.len() && (#[trigger] inputs[i]).notify_signal(env) == Some(
                #[trigger] all.notify_signals[k],
            ) by {
            if k < before.notify_signals.len() {
                assert(all.notify_signals[k] == before.notify_signals[k]);
                let i = choose|i: int|
                    0 <= i < init.len() && (#[trigger] init[i]).notify_signal(env) == Some(
                        before.notify_signals[k],
                    );
                assert(inputs[i] == init[i]);
                assert(inputs[i].notify_signal(env) == Some(all.notify_signals[k]));
            } else {
                assert(inputs[inputs.len() - 1] == last);
                assert(inputs[inputs.len() - 1].notify_signal(env) == Some(all.notify_signals[k]));
            }
        }
    }
}

/// Every accessor that an analysis gives belongs to a property of the
/// list that allows it: one that carries its name and that no configuration
/// record asks to ignore; for a setter, one that is writable, not bound to
/// construction and without a setter written by hand at the version in
/// effect or before; for a getter, one that is readable, whose type has a
/// default value, and without such a getter written by hand. The accessor
/// has the version in effect for that property, and does not take a value
/// by mutable reference.
pub proof fn accessors_come_from_eligible_properties(
    env: Env,
    inputs: Seq<PropertyInputView>,
    owner: Seq<char>,
    k: int,
)
    requires
        0 <= k < analysis_of(env, inputs, owner).properties.len(),
    ensures
        exists|i: int|
            0 <= i < inputs.len() && {
                let input = #[trigger] inputs[i];
                let accessor = analysis_of(env, inputs, owner).properties[k];
                &&& is_accessor_of(env, input, accessor)
                &&& input.prop.name == accessor.name
                &&& !any_ignored(input.configured)
                &&& !accessor.is_get ==> input.prop.writable && !input.prop.construct_only && !(
                input.manual_setter.found && version_le(
                    input.manual_setter.version,
                    input.version(),
                ))
                &&& accessor.is_get ==> input.prop.readable && default_value_of(input.type_) is Some
                    && !(input.manual_getter.found && version_le(
                    input.manual_getter.version,
                    input.version(),
                ))
                &&& accessor.version == input.version()
                &&& accessor.set_in_ref_mode != RefMode::ByRefMut
            },
{
    bindings_have_a_source(env, inputs, owner);
    let accessor = analysis_of(env, inputs, owner).properties[k];
    let i = choose|i: int|
        0 <= i < inputs.len() && is_accessor_of(env, #[trigger] inputs[i], accessor);
    assert(is_accessor_of(env, inputs[i], accessor));
}

/// Every signal binding that an analysis gives belongs to a property of
/// the list that no configuration record asks to ignore, and is named
/// after it.
pub proof fn signals_come_from_kept_properties(
    env: Env,
    inputs: Seq<PropertyInputView>,
    owner: Seq<char>,
    k: int,
)
    requires
        0 <= k < analysis_of(env, inputs, owner).notify_signals.len(),
    ensures
        exists|i: int|
            0 <= i < inputs.len() && {
                let input = #[trigger] inputs[i];
                let binding = analysis_of(env, inputs, owner).notify_signals[k];
                &&& input.notify_signal(env) == Some(binding)
                &&& binding.signal_name == "notify::"@ + input.prop.name
                &&& !any_ignored(input.configured)
                &&& input.trampoline == Some(binding.trampoline_name)
            },
{
    bindings_have_a_source(env, inputs, owner);
    let binding = analysis_of(env, inputs, owner).notify_signals[k];
    let i = choose|i: int|
        0 <= i < inputs.len() && (#[trigger] inputs[i]).notify_signal(env) == Some(binding);
    assert(inputs[i].notify_signal(env) == Some(binding));
}

} // verus!
