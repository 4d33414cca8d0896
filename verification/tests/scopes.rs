use neon::handle::{DowncastResult, Handle};
use neon::isolate::{Isolate, Kind};
use neon::scope::{
    ensure_active, ChainedScope, NestedScope, RootScope, RootScopeInternal, Scope, ScopeInternal,
};

#[test]
fn root_scope_opens_the_first_region() {
    let mut iso = Isolate::new(1);
    let root = RootScope::new(&mut iso);
    assert_eq!(root.isolate(), 1);
    assert_eq!(root.region(), 0);
    assert!(root.is_active());
    assert_eq!(iso.open_regions, vec![0]);
    assert_eq!(iso.next_region, 1);
    ensure_active(&root);
}

#[test]
fn nested_scope_bounds_intermediate_handles() {
    let mut iso = Isolate::new(2);
    let mut root = RootScope::new(&mut iso);
    let a = iso.new_value(&root, Kind::Number);

    let (iso, b) = root.nested(iso, |mut i: Isolate, n: NestedScope| {
        assert!(n.is_active());
        assert_eq!(n.isolate(), 2);
        let b = i.new_value(&n, Kind::Text);
        (i, b)
    });

    // the nested region is torn down, so b's region tag is dead ...
    assert!(!iso.open_regions.contains(&b.region));
    // ... while a's region, the root region, is still open
    assert!(iso.open_regions.contains(&a.region));
    assert!(a.is_a(&iso, Kind::Number));
}

#[test]
fn nested_reactivates_the_outer_scope() {
    let mut iso = Isolate::new(3);
    let mut root = RootScope::new(&mut iso);
    assert!(root.is_active());

    let (mut iso, ()) = root.nested(iso, |i: Isolate, _n: NestedScope| (i, ()));

    // an operation that was legal before the call is legal again
    assert!(root.is_active());
    ensure_active(&root);
    let c = iso.new_value(&root, Kind::Boolean);
    assert!(c.is_a(&iso, Kind::Boolean));
}

#[test]
fn nested_downcast_scenario() {
    let mut iso = Isolate::new(4);
    let mut root = RootScope::new(&mut iso);
    let a = iso.new_value(&root, Kind::Number);

    // the callback creates a numeric value: the downcast succeeds
    let (iso, ok) = root.nested(iso, |mut i: Isolate, n: NestedScope| {
        let b = i.new_value(&n, Kind::Number);
        let r: DowncastResult = b.downcast(&i, Kind::Number);
        (i, r)
    });
    let narrowed = ok.expect("numeric value must downcast to the numeric kind");
    assert_eq!(narrowed.kind, Kind::Number);

    // the callback creates a textual value: the downcast to numeric fails
    let (iso, failed) = root.nested(iso, |mut i: Isolate, n: NestedScope| {
        let b = i.new_value(&n, Kind::Text);
        let r: DowncastResult = b.downcast(&i, Kind::Number);
        (i, r)
    });
    let error = failed.expect_err("textual value must not downcast to the numeric kind");
    assert_eq!(error.from, Kind::Text);
    assert_eq!(error.to, Kind::Number);

    // in neither case is a affected
    assert!(a.is_a(&iso, Kind::Number));
    assert!(a.downcast(&iso, Kind::Number).is_ok());
}

#[test]
fn chained_escape_promotes_one_handle_to_the_parent_region() {
    let mut iso = Isolate::new(5);
    let mut root = RootScope::new(&mut iso);
    let root_region = root.region();

    let (iso, (promoted, local_slot, local_region)) =
        root.chained(iso, |mut i: Isolate, mut c: ChainedScope| {
            let v = i.new_value(&c, Kind::Number);
            let h = c.escape(&mut i, v);
            assert!(c.region() != root_region);
            (i, (h, v.slot, v.region))
        });

    // the promoted handle carries the parent's region tag and refers, by
    // strict identity, to the value created inside the chained region
    assert_eq!(promoted.region, root_region);
    assert_eq!(promoted.slot, local_slot);
    assert!(local_region != root_region);
    assert!(!iso.open_regions.contains(&local_region));

    // it is usable after the chained callback returned
    assert!(promoted.is_a(&iso, Kind::Number));
    let narrowed = promoted.downcast(&iso, Kind::Number).expect("promoted handle stays usable");
    assert!(narrowed.strict_equals(&iso, &promoted));
    assert!(root.is_active());
}

#[test]
fn chained_scope_spawned_from_a_nested_scope_escapes_into_it() {
    let mut iso = Isolate::new(6);
    let mut root = RootScope::new(&mut iso);

    let (iso, kept) = root.nested(iso, |i: Isolate, mut n: NestedScope| {
        let n_region = n.region();
        let (i, h) = n.chained(i, |mut i: Isolate, mut c: ChainedScope| {
            let v = i.new_value(&c, Kind::Function);
            let h = c.escape(&mut i, v);
            (i, h)
        });
        assert!(n.is_active());
        assert_eq!(h.region, n_region);
        // inside the nested region the promoted handle is still usable
        assert!(h.is_a(&i, Kind::Object));
        (i, h.slot)
    });

    // the nested region itself has been torn down in turn
    assert_eq!(iso.region_of[kept], 1);
    assert!(!iso.open_regions.contains(&1));
    assert!(root.is_active());
}

#[test]
fn suspension_flags_follow_the_child_region() {
    let mut iso = Isolate::new(8);
    let mut root = RootScope::new(&mut iso);

    let (iso, seen_active) = root.nested(iso, |i: Isolate, n: NestedScope| {
        // the fresh child starts active; the outer scope was suspended before
        // control reached this callback
        (i, n.is_active())
    });
    assert!(seen_active);
    assert!(root.is_active());

    let (_iso, child_active) = root.chained(iso, |i: Isolate, c: ChainedScope| {
        let flag = c.is_active();
        (i, flag)
    });
    assert!(child_active);
    assert!(root.is_active());
}

#[test]
fn regions_are_never_reused_after_teardown() {
    let mut iso = Isolate::new(9);
    let mut root = RootScope::new(&mut iso);

    let (iso, first_child) =
        root.nested(iso, |i: Isolate, n: NestedScope| { let r = n.region(); (i, r) });
    let (iso, second_child) =
        root.nested(iso, |i: Isolate, n: NestedScope| { let r = n.region(); (i, r) });

    assert!(first_child != second_child);
    assert!(!iso.open_regions.contains(&first_child));
    assert!(!iso.open_regions.contains(&second_child));
    assert!(iso.open_regions.contains(&root.region()));
}

#[test]
fn new_value_tags_handles_with_the_creating_scope() {
    let mut iso = Isolate::new(10);
    let root = RootScope::new(&mut iso);
    let h: Handle = iso.new_value(&root, Kind::Object);
    assert_eq!(h.region, root.region());
    assert_eq!(h.kind, Kind::Object);
    assert_eq!(iso.region_of[h.slot], root.region());
    assert_eq!(iso.kinds[h.slot], Kind::Object);
}
