//! The registration model: what initialization exposes, and that repeating
//! it changes nothing.

use plugin_boundary::registry::Registry;

#[test]
fn fresh_registry_exposes_nothing() {
    let registry = Registry::new();
    assert!(!registry.plugin_marker);
    assert!(!registry.imported_call);
    assert!(!registry.invoke_call);
}

#[test]
fn registration_exposes_all_three() {
    let mut registry = Registry::new();
    registry.register_all();
    assert!(registry.plugin_marker);
    assert!(registry.imported_call);
    assert!(registry.invoke_call);
}

#[test]
fn registration_is_idempotent() {
    let mut registry = Registry::new();
    registry.register_all();
    let after_once = registry;
    registry.register_all();
    assert_eq!(registry, after_once);
}
