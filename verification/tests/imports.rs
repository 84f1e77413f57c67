use property_bindings::imports::Imports;
use property_bindings::version::Version;

fn v(major: u16, minor: u16, patch: u16) -> Option<Version> {
    Some(Version::new(major, minor, patch))
}

#[test]
fn new_imports_require_nothing() {
    let imports = Imports::new();
    assert!(imports.entries().is_empty());
    assert_eq!(imports.get("glib"), None);
}

#[test]
fn add_keeps_the_least_version() {
    let mut imports = Imports::new();
    imports.add("glib::Value", v(2, 8, 0));
    assert_eq!(imports.get("glib::Value"), Some(v(2, 8, 0)));
    imports.add("glib::Value", v(2, 10, 0));
    assert_eq!(imports.get("glib::Value"), Some(v(2, 8, 0)));
    imports.add("glib::Value", v(2, 4, 1));
    assert_eq!(imports.get("glib::Value"), Some(v(2, 4, 1)));
    imports.add("glib::Value", None);
    assert_eq!(imports.get("glib::Value"), Some(None));
    imports.add("glib::Value", v(1, 0, 0));
    assert_eq!(imports.get("glib::Value"), Some(None));
    assert_eq!(imports.entries().len(), 1);
}

#[test]
fn add_keeps_other_symbols() {
    let mut imports = Imports::new();
    imports.add("glib", v(2, 0, 0));
    imports.add("glib::Value", v(3, 0, 0));
    imports.add("glib", v(1, 0, 0));
    assert_eq!(imports.get("glib"), Some(v(1, 0, 0)));
    assert_eq!(imports.get("glib::Value"), Some(v(3, 0, 0)));
    assert_eq!(imports.get("glib::"), None);
    let entries = imports.entries();
    assert_eq!(entries.len(), 2);
    assert_eq!(entries[0].name, "glib");
    assert_eq!(entries[0].version, v(1, 0, 0));
    assert_eq!(entries[1].name, "glib::Value");
    assert_eq!(entries[1].version, v(3, 0, 0));
}

#[test]
fn add_with_equal_version_changes_nothing() {
    let mut imports = Imports::new();
    imports.add("glib", v(2, 0, 0));
    imports.add("glib", v(2, 0, 0));
    assert_eq!(imports.get("glib"), Some(v(2, 0, 0)));
    assert_eq!(imports.entries().len(), 1);
}
