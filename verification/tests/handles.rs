use neon::handle::{DowncastError, Handle, Throw};
use neon::isolate::{Isolate, Kind};
use neon::scope::{RootScope, RootScopeInternal};

fn root_with(kind: Kind) -> (Isolate, RootScope, Handle) {
    let mut iso = Isolate::new(7);
    let root = RootScope::new(&mut iso);
    let h = iso.new_value(&root, kind);
    (iso, root, h)
}

#[test]
fn downcast_to_exact_runtime_kind_succeeds() {
    let (iso, _root, h) = root_with(Kind::Number);
    let narrowed = h.downcast(&iso, Kind::Number).expect("exact kind must downcast");
    assert!(narrowed.strict_equals(&iso, &h));
    assert_eq!(narrowed.kind, Kind::Number);
    assert_eq!(narrowed.region, h.region);
}

#[test]
fn upcast_then_downcast_is_identity() {
    let (iso, _root, h) = root_with(Kind::Function);
    let widened = h.upcast(Kind::Object);
    assert_eq!(widened.kind, Kind::Object);
    assert_eq!(widened.region, h.region);
    let narrowed = widened.downcast(&iso, Kind::Function).expect("roundtrip must succeed");
    assert!(narrowed.strict_equals(&iso, &h));
    assert_eq!(narrowed.kind, Kind::Function);

    let top = h.upcast(Kind::Value);
    let back = top.downcast(&iso, Kind::Function).expect("roundtrip through top kind");
    assert!(back.strict_equals(&iso, &h));
}

#[test]
fn downcast_mismatch_fails_and_leaves_handle_usable() {
    let (iso, _root, h) = root_with(Kind::Number);
    let failed = h.downcast(&iso, Kind::Text).expect_err("kinds differ");
    assert_eq!(failed, DowncastError { from: Kind::Number, to: Kind::Text });
    assert_eq!(failed.message().as_str(), "failed to downcast Number to Text");
    // the handle is not invalidated by the failure
    assert!(h.is_a(&iso, Kind::Number));
    let retried = h.downcast(&iso, Kind::Number).expect("handle still usable");
    assert!(retried.strict_equals(&iso, &h));
}

#[test]
fn downcast_to_supertype_of_runtime_kind_is_a_mismatch() {
    let (iso, _root, h) = root_with(Kind::Function);
    let widened = h.upcast(Kind::Value);
    let failed = widened.downcast(&iso, Kind::Object).expect_err("kind tags must match exactly");
    assert_eq!(failed, DowncastError { from: Kind::Value, to: Kind::Object });
}

#[test]
fn is_a_reports_instances_of_supertypes() {
    let (iso, root, h) = root_with(Kind::Number);
    assert!(h.is_a(&iso, Kind::Number));
    assert!(h.is_a(&iso, Kind::Value));
    assert!(!h.is_a(&iso, Kind::Text));
    assert!(!h.is_a(&iso, Kind::Object));

    let mut iso = iso;
    let f = iso.new_value(&root, Kind::Function);
    assert!(f.is_a(&iso, Kind::Function));
    assert!(f.is_a(&iso, Kind::Object));
    assert!(f.is_a(&iso, Kind::Value));
    assert!(!f.is_a(&iso, Kind::Boolean));
}

#[test]
fn downcast_or_throw_passes_matches_through() {
    let (mut iso, _root, h) = root_with(Kind::Boolean);
    let narrowed = h.downcast_or_throw(&mut iso, Kind::Boolean).expect("match must not throw");
    assert!(narrowed.strict_equals(&iso, &h));
    assert_eq!(iso.pending_error, None);
}

#[test]
fn downcast_or_throw_records_a_type_error_on_mismatch() {
    let (mut iso, _root, h) = root_with(Kind::Boolean);
    let thrown = h.downcast_or_throw(&mut iso, Kind::Text).expect_err("mismatch must throw");
    assert_eq!(thrown, Throw);
    assert_eq!(iso.pending_error, Some(DowncastError { from: Kind::Boolean, to: Kind::Text }));
}

#[test]
fn or_throw_escalates_only_failures() {
    let (mut iso, _root, h) = root_with(Kind::Number);
    let ok = neon::handle::or_throw(Ok(h), &mut iso).expect("success passes through");
    assert!(ok.strict_equals(&iso, &h));
    assert_eq!(iso.pending_error, None);

    let error = DowncastError { from: Kind::Number, to: Kind::Object };
    let thrown = neon::handle::or_throw(Err(error), &mut iso).expect_err("failure escalates");
    assert_eq!(thrown, Throw);
    assert_eq!(iso.pending_error, Some(error));
}

#[test]
fn strict_equals_is_identity_of_slots() {
    let (mut iso, root, a) = root_with(Kind::Number);
    let b = iso.new_value(&root, Kind::Number);
    assert!(!a.strict_equals(&iso, &b));
    assert!(a.strict_equals(&iso, &a));
    // a copy of the wrapper refers to the same underlying value
    let c = a;
    assert!(a.strict_equals(&iso, &c));
    // identity is independent of the declared kind
    let widened = a.upcast(Kind::Value);
    assert!(widened.strict_equals(&iso, &a));
}
