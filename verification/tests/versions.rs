use property_bindings::config::{is_ignored, minimum_version, version_in_effect, PropertyOverride};
use property_bindings::env::Env;
use property_bindings::library::{Fundamental, TypeCategory};
use property_bindings::ref_mode::RefMode;
use property_bindings::signatures::{manual_getter_name, manual_setter_name, Lookup};
use property_bindings::text::{join, join3};
use property_bindings::version::{version_at_most, Version};

fn v(major: u16, minor: u16, patch: u16) -> Version {
    Version::new(major, minor, patch)
}

fn at(version: Option<Version>) -> PropertyOverride {
    PropertyOverride { ignore: false, version }
}

#[test]
fn version_new_keeps_its_parts() {
    let version = Version::new(3, 22, 7);
    assert_eq!(version.major, 3);
    assert_eq!(version.minor, 22);
    assert_eq!(version.patch, 7);
}

#[test]
fn versions_are_ordered_part_by_part() {
    assert!(v(1, 0, 0).at_most(&v(1, 0, 0)));
    assert!(v(1, 0, 0).at_most(&v(1, 0, 1)));
    assert!(!v(1, 0, 1).at_most(&v(1, 0, 0)));
    assert!(v(1, 9, 9).at_most(&v(2, 0, 0)));
    assert!(!v(2, 0, 0).at_most(&v(1, 9, 9)));
    assert!(v(2, 3, 9).at_most(&v(2, 4, 0)));
    assert!(!v(2, 4, 0).at_most(&v(2, 3, 9)));
    assert!(v(0, 0, 0).at_most(&v(65535, 65535, 65535)));
}

#[test]
fn absent_version_is_the_least() {
    assert!(version_at_most(None, None));
    assert!(version_at_most(None, Some(v(0, 0, 0))));
    assert!(!version_at_most(Some(v(0, 0, 0)), None));
    assert!(version_at_most(Some(v(1, 2, 3)), Some(v(1, 2, 3))));
    assert!(version_at_most(Some(v(1, 2, 3)), Some(v(1, 3, 0))));
    assert!(!version_at_most(Some(v(1, 3, 0)), Some(v(1, 2, 3))));
}

#[test]
fn minimum_version_skips_records_without_version() {
    assert_eq!(minimum_version(&[]), None);
    assert_eq!(minimum_version(&[at(None), at(None)]), None);
    assert_eq!(minimum_version(&[at(None), at(Some(v(2, 0, 0)))]), Some(v(2, 0, 0)));
    assert_eq!(
        minimum_version(&[at(Some(v(2, 4, 0))), at(None), at(Some(v(2, 2, 0))), at(Some(v(3, 0, 0)))]),
        Some(v(2, 2, 0))
    );
}

#[test]
fn version_in_effect_prefers_configuration() {
    assert_eq!(version_in_effect(&[], None), None);
    assert_eq!(version_in_effect(&[], Some(v(1, 0, 0))), Some(v(1, 0, 0)));
    assert_eq!(version_in_effect(&[at(None)], Some(v(1, 0, 0))), Some(v(1, 0, 0)));
    assert_eq!(version_in_effect(&[at(Some(v(2, 0, 0)))], Some(v(1, 0, 0))), Some(v(2, 0, 0)));
    assert_eq!(version_in_effect(&[at(Some(v(2, 0, 0)))], None), Some(v(2, 0, 0)));
    assert_eq!(
        version_in_effect(&[at(Some(v(2, 0, 0))), at(Some(v(0, 9, 0)))], Some(v(1, 0, 0))),
        Some(v(0, 9, 0))
    );
}

#[test]
fn ignore_of_any_record_counts() {
    assert!(!is_ignored(&[]));
    assert!(!is_ignored(&[at(None), at(Some(v(1, 0, 0)))]));
    assert!(is_ignored(&[at(None), PropertyOverride { ignore: true, version: None }]));
    assert!(is_ignored(&[PropertyOverride { ignore: true, version: Some(v(1, 0, 0)) }, at(None)]));
}

#[test]
fn totally_deprecated_at_or_before_the_cutoff() {
    let env = Env { deprecation_cutoff: Some(v(3, 10, 0)) };
    assert!(env.is_totally_deprecated(Some(v(3, 10, 0))));
    assert!(env.is_totally_deprecated(Some(v(3, 9, 9))));
    assert!(env.is_totally_deprecated(Some(v(0, 0, 0))));
    assert!(!env.is_totally_deprecated(Some(v(3, 10, 1))));
    assert!(!env.is_totally_deprecated(Some(v(4, 0, 0))));
    assert!(!env.is_totally_deprecated(None));
    let open = Env { deprecation_cutoff: None };
    assert!(!open.is_totally_deprecated(Some(v(0, 0, 0))));
    assert!(!open.is_totally_deprecated(None));
}

#[test]
fn lookup_suppresses_by_version_or_deprecation() {
    let env = Env { deprecation_cutoff: Some(v(2, 0, 0)) };
    let open = Env { deprecation_cutoff: None };
    let found = |version| Lookup { found: true, version };
    assert!(found(Some(v(1, 0, 0))).suppresses(&open, Some(v(2, 0, 0))));
    assert!(found(Some(v(2, 0, 0))).suppresses(&open, Some(v(2, 0, 0))));
    assert!(!found(Some(v(2, 0, 1))).suppresses(&open, Some(v(2, 0, 0))));
    assert!(!found(Some(v(1, 0, 0))).suppresses(&open, None));
    assert!(found(None).suppresses(&open, None));
    assert!(found(None).suppresses(&open, Some(v(1, 0, 0))));
    assert!(found(Some(v(1, 5, 0))).suppresses(&env, None));
    assert!(!found(Some(v(2, 5, 0))).suppresses(&env, None));
    assert!(!Lookup { found: false, version: None }.suppresses(&env, Some(v(9, 0, 0))));
    assert!(!Lookup { found: false, version: Some(v(1, 0, 0)) }.suppresses(&env, Some(v(9, 0, 0))));
}

#[test]
fn manual_accessor_names() {
    assert_eq!(manual_getter_name("foo"), "get_foo");
    assert_eq!(manual_setter_name("foo"), "set_foo");
    assert_eq!(manual_getter_name("is_active"), "get_is_active");
    assert_eq!(manual_setter_name(""), "set_");
}

#[test]
fn join_appends() {
    assert_eq!(join("ab", "cd"), "abcd");
    assert_eq!(join("", "cd"), "cd");
    assert_eq!(join("ab", ""), "ab");
    assert_eq!(join3("a", "b", "c"), "abc");
    assert_eq!(join3("None::<&", "Widget", ">"), "None::<&Widget>");
}

#[test]
fn ref_mode_is_ref() {
    assert!(!RefMode::ByValue.is_ref());
    assert!(RefMode::ByRef.is_ref());
    assert!(RefMode::ByRefMut.is_ref());
}

#[test]
fn ref_mode_for_setter_input() {
    assert_eq!(RefMode::ByValue.for_setter_input(), RefMode::ByValue);
    assert_eq!(RefMode::ByRef.for_setter_input(), RefMode::ByRef);
    assert_eq!(RefMode::ByRefMut.for_setter_input(), RefMode::ByRef);
}

#[test]
fn object_like_categories() {
    assert!(TypeCategory::Class.object_like());
    assert!(TypeCategory::Interface.object_like());
    assert!(!TypeCategory::Record.object_like());
    assert!(!TypeCategory::Enumeration.object_like());
    assert!(!TypeCategory::Fundamental(Fundamental::Pointer).object_like());
    assert!(!TypeCategory::List.object_like());
}
