//! The scope hierarchy: Root, Nested and Chained regions, the reentrancy
//! guard, and the escape mechanism that promotes one handle from a chained
//! region into its parent region.

use crate::handle::Handle;
use crate::isolate::{region_closed, region_opened, slots_preserved, Isolate};
use vstd::prelude::*;

verus! {

/// What every scope exposes to the subsystem itself: which isolate it belongs
/// to, which region it bounds, and the reentrancy guard. A scope is suspended
/// (inactive) exactly while control is inside a child region it has spawned.
pub trait ScopeInternal: Sized {
    /// Identifier of the isolate this scope belongs to.
    spec fn spec_isolate(self) -> u64;

    /// The region this scope bounds.
    spec fn spec_region(self) -> usize;

    /// The reentrancy guard: whether the scope may currently issue operations.
    spec fn spec_active(self) -> bool;

    /// Identifier of the isolate this scope belongs to.
    fn isolate(&self) -> (r: u64)
        ensures
            r == self.spec_isolate(),
    ;

    /// The region this scope bounds.
    fn region(&self) -> (r: usize)
        ensures
            r == self.spec_region(),
    ;

    /// Reads the reentrancy guard.
    fn is_active(&self) -> (r: bool)
        ensures
            r == self.spec_active(),
    ;

    /// Sets the reentrancy guard; only scope-spawning code flips it.
    fn set_active(&mut self, active: bool)
        ensures
            final(self).spec_active() == active,
            final(self).spec_isolate() == old(self).spec_isolate(),
            final(self).spec_region() == old(self).spec_region(),
    ;
}

/// The reentrancy guard check: a scope may spawn a child region or create
/// handles only while it is active. The engine discipline treats use of an
/// inactive scope as a programming defect that aborts the operation; here the
/// defect is unrepresentable, since every caller must prove the scope active.
pub fn ensure_active<S: ScopeInternal>(scope: &S)
    requires
        scope.spec_active(),
{
    let _active: bool = scope.is_active();
}

/// The outermost region of one engine entry; it has no parent.
pub struct RootScope {
    /// The isolate this scope belongs to.
    pub isolate_id: u64,
    /// The region this scope bounds.
    pub region: usize,
    /// The reentrancy guard.
    pub active: bool,
}

/// A child region whose handles cannot leave it.
pub struct NestedScope {
    /// The isolate this scope belongs to.
    pub isolate_id: u64,
    /// The region this scope bounds.
    pub region: usize,
    /// The reentrancy guard.
    pub active: bool,
}

/// A child region that supports exactly one escape of a handle to the region
/// of the scope that spawned it.
pub struct ChainedScope {
    /// The isolate this scope belongs to.
    pub isolate_id: u64,
    /// The region this scope bounds.
    pub region: usize,
    /// The region of the scope that spawned this one; escape promotes into it.
    pub parent_region: usize,
    /// The reentrancy guard.
    pub active: bool,
    /// Whether the one sanctioned escape has been used.
    pub escaped: bool,
}

impl ScopeInternal for RootScope {
    open spec fn spec_isolate(self) -> u64 {
        self.isolate_id
    }

    open spec fn spec_region(self) -> usize {
        self.region
    }

    open spec fn spec_active(self) -> bool {
        self.active
    }

    fn isolate(&self) -> u64 {
        self.isolate_id
    }

    fn region(&self) -> usize {
        self.region
    }

    fn is_active(&self) -> bool {
        self.active
    }

    fn set_active(&mut self, active: bool) {
        self.active = active;
    }
}

impl ScopeInternal for NestedScope {
    open spec fn spec_isolate(self) -> u64 {
        self.isolate_id
    }

    open spec fn spec_region(self) -> usize {
        self.region
    }

    open spec fn spec_active(self) -> bool {
        self.active
    }

    fn isolate(&self) -> u64 {
        self.isolate_id
    }

    fn region(&self) -> usize {
        self.region
    }

    fn is_active(&self) -> bool {
        self.active
    }

    fn set_active(&mut self, active: bool) {
        self.active = active;
    }
}

impl ScopeInternal for ChainedScope {
    open spec fn spec_isolate(self) -> u64 {
        self.isolate_id
    }

    open spec fn spec_region(self) -> usize {
        self.region
    }

    open spec fn spec_active(self) -> bool {
        self.active
    }

    fn isolate(&self) -> u64 {
        self.isolate_id
    }

    fn region(&self) -> usize {
        self.region
    }

    fn is_active(&self) -> bool {
        self.active
    }

    fn set_active(&mut self, active: bool) {
        self.active = active;
    }
}

/// Constructor of the outermost scope, one per engine entry point.
pub trait RootScopeInternal: ScopeInternal {
    /// Opens the root region of one engine entry.
    fn new(iso: &mut Isolate) -> (s: Self)
        requires
            old(iso).wf(),
            old(iso).next_region < usize::MAX,
            old(iso).open_regions@.len() == 0,
        ensures
            region_opened(*old(iso), *final(iso)),
            final(iso).wf(),
            s.spec_isolate() == old(iso).id,
            s.spec_region() == old(iso).next_region,
            s.spec_active(),
            final(iso).live(s.spec_region()),
    ;
}

impl RootScopeInternal for RootScope {
    fn new(iso: &mut Isolate) -> (s: Self) {
        let region: usize = iso.open_region();
        RootScope { isolate_id: iso.id, region, active: true }
    }
}

/// The state a nested callback starts from: the caller's isolate with one
/// fresh region opened, and a fresh active scope bounding that region.
pub open spec fn nested_entry(pre: Isolate, i: Isolate, s: NestedScope) -> bool {
    region_opened(pre, i) && s == (NestedScope {
        isolate_id: pre.id,
        region: pre.next_region,
        active: true,
    })
}

/// The state a chained callback starts from; the fresh scope also records the
/// spawning scope's region as the escape target.
pub open spec fn chained_entry(
    pre: Isolate,
    parent_region: usize,
    i: Isolate,
    s: ChainedScope,
) -> bool {
    region_opened(pre, i) && s == (ChainedScope {
        isolate_id: pre.id,
        region: pre.next_region,
        parent_region,
        active: true,
        escaped: false,
    })
}

/// What a well-behaved child callback leaves behind: a well-formed isolate of
/// the same instance, the child region still on top of the open stack, and
/// every slot that existed before the child region unchanged.
pub open spec fn child_done(pre: Isolate, post: Isolate) -> bool {
    &&& post.wf()
    &&& post.id == pre.id
    &&& post.open_regions@ == pre.open_regions@.push(pre.next_region)
    &&& post.next_region > pre.next_region
    &&& slots_preserved(pre, post)
}

/// The scope operations: bounding short-lived handles in a fresh nested child
/// region, or creating values in a chained child region and escaping one
/// handle outward.
pub trait Scope: ScopeInternal {
    /// Suspends this scope, runs `f` with a fresh nested child region, tears
    /// that region down and reactivates this scope. Every handle the child
    /// region produced is dead once `nested` returns, while every handle that
    /// was valid before the call is valid after it.
    fn nested<T, F: FnOnce(Isolate, NestedScope) -> (Isolate, T)>(
        &mut self,
        iso: Isolate,
        f: F,
    ) -> (r: (Isolate, T))
        requires
            iso.wf(),
            iso.next_region < usize::MAX,
            old(self).spec_active(),
            old(self).spec_isolate() == iso.id,
            forall|i: Isolate, s: NestedScope| nested_entry(iso, i, s) ==> call_requires(f, (i, s)),
            forall|i: Isolate, s: NestedScope, out: (Isolate, T)|
                nested_entry(iso, i, s) && call_ensures(f, (i, s), out) ==> child_done(iso, out.0),
        ensures
            final(self).spec_active(),
            final(self).spec_isolate() == old(self).spec_isolate(),
            final(self).spec_region() == old(self).spec_region(),
            r.0.wf(),
            r.0.id == iso.id,
            r.0.open_regions@ == iso.open_regions@,
            r.0.next_region > iso.next_region,
            slots_preserved(iso, r.0),
            !r.0.live(iso.next_region),
            forall|h: Handle| h.valid(iso) ==> h.valid(r.0),
            exists|i: Isolate, s: NestedScope, out: (Isolate, T)|
                nested_entry(iso, i, s) && #[trigger] call_ensures(f, (i, s), out) && child_done(
                    iso,
                    out.0,
                ) && region_closed(out.0, r.0) && out.1 == r.1,
    ;

    /// Like `nested`, but the child is a chained region carrying an escape
    /// boundary, so `f` may promote exactly one handle into this scope's
    /// region before the child region is torn down.
    fn chained<T, F: FnOnce(Isolate, ChainedScope) -> (Isolate, T)>(
        &mut self,
        iso: Isolate,
        f: F,
    ) -> (r: (Isolate, T))
        requires
            iso.wf(),
            iso.next_region < usize::MAX,
            old(self).spec_active(),
            old(self).spec_isolate() == iso.id,
            forall|i: Isolate, s: ChainedScope|
                chained_entry(iso, old(self).spec_region(), i, s) ==> call_requires(f, (i, s)),
            forall|i: Isolate, s: ChainedScope, out: (Isolate, T)|
                chained_entry(iso, old(self).spec_region(), i, s) && call_ensures(f, (i, s), out)
                    ==> child_done(iso, out.0),
        ensures
            final(self).spec_active(),
            final(self).spec_isolate() == old(self).spec_isolate(),
            final(self).spec_region() == old(self).spec_region(),
            r.0.wf(),
            r.0.id == iso.id,
            r.0.open_regions@ == iso.open_regions@,
            r.0.next_region > iso.next_region,
            slots_preserved(iso, r.0),
            !r.0.live(iso.next_region),
            forall|h: Handle| h.valid(iso) ==> h.valid(r.0),
            exists|i: Isolate, s: ChainedScope, out: (Isolate, T)|
                chained_entry(iso, old(self).spec_region(), i, s) && #[trigger] call_ensures(
                    f,
                    (i, s),
                    out,
                ) && child_done(iso, out.0) && region_closed(out.0, r.0) && out.1 == r.1,
    ;
}

/// Runs `f` in a fresh nested child region of `outer`'s isolate, suspending
/// `outer` for the duration and reactivating it afterwards.
pub fn nest<S: ScopeInternal, T, F: FnOnce(Isolate, NestedScope) -> (Isolate, T)>(
    outer: &mut S,
    iso: Isolate,
    f: F,
) -> (r: (Isolate, T))
    requires
        iso.wf(),
        iso.next_region < usize::MAX,
        old(outer).spec_active(),
        old(outer).spec_isolate() == iso.id,
        forall|i: Isolate, s: NestedScope| nested_entry(iso, i, s) ==> call_requires(f, (i, s)),
        forall|i: Isolate, s: NestedScope, out: (Isolate, T)|
            nested_entry(iso, i, s) && call_ensures(f, (i, s), out) ==> child_done(iso, out.0),
    ensures
        final(outer).spec_active(),
        final(outer).spec_isolate() == old(outer).spec_isolate(),
        final(outer).spec_region() == old(outer).spec_region(),
        r.0.wf(),
        r.0.id == iso.id,
        r.0.open_regions@ == iso.open_regions@,
        r.0.next_region > iso.next_region,
        slots_preserved(iso, r.0),
        !r.0.live(iso.next_region),
        forall|h: Handle| h.valid(iso) ==> h.valid(r.0),
        exists|i: Isolate, s: NestedScope, out: (Isolate, T)|
            nested_entry(iso, i, s) && #[trigger] call_ensures(f, (i, s), out) && child_done(
                iso,
                out.0,
            ) && region_closed(out.0, r.0) && out.1 == r.1,
{
    ensure_active(outer);
    let ghost pre = iso;
    outer.set_active(false);
    let mut child_iso = iso;
    let child: usize = child_iso.open_region();
    let scope = NestedScope { isolate_id: outer.isolate(), region: child, active: true };
    proof {
        assert(nested_entry(pre, child_iso, scope));
    }
    let ghost entry_iso = child_iso;
    let ghost entry_scope = scope;
    let out = f(child_iso, scope);
    let ghost callback_out = out;
    let (mut done_iso, result) = out;
    proof {
        assert(call_ensures(f, (entry_iso, entry_scope), callback_out));
        assert(child_done(pre, done_iso));
    }
    done_iso.close_region(child);
    proof {
        assert(done_iso.open_regions@ =~= pre.open_regions@);
        assert forall|h: Handle| h.valid(pre) implies h.valid(done_iso) by {
            assert(done_iso.region_of@[h.slot as int] == pre.region_of@[h.slot as int]);
            assert(done_iso.kinds@[h.slot as int] == pre.kinds@[h.slot as int]);
        }
    }
    outer.set_active(true);
    (done_iso, result)
}

/// Runs `f` in a fresh chained child region of `outer`'s isolate, suspending
/// `outer` for the duration and reactivating it afterwards. The child scope
/// records `outer`'s region as the target of its one escape.
pub fn chain<S: ScopeInternal, T, F: FnOnce(Isolate, ChainedScope) -> (Isolate, T)>(
    outer: &mut S,
    iso: Isolate,
    f: F,
) -> (r: (Isolate, T))
    requires
        iso.wf(),
        iso.next_region < usize::MAX,
        old(outer).spec_active(),
        old(outer).spec_isolate() == iso.id,
        forall|i: Isolate, s: ChainedScope|
            chained_entry(iso, old(outer).spec_region(), i, s) ==> call_requires(f, (i, s)),
        forall|i: Isolate, s: ChainedScope, out: (Isolate, T)|
            chained_entry(iso, old(outer).spec_region(), i, s) && call_ensures(f, (i, s), out)
                ==> child_done(iso, out.0),
    ensures
        final(outer).spec_active(),
        final(outer).spec_isolate() == old(outer).spec_isolate(),
        final(outer).spec_region() == old(outer).spec_region(),
        r.0.wf(),
        r.0.id == iso.id,
        r.0.open_regions@ == iso.open_regions@,
        r.0.next_region > iso.next_region,
        slots_preserved(iso, r.0),
        !r.0.live(iso.next_region),
        forall|h: Handle| h.valid(iso) ==> h.valid(r.0),
        exists|i: Isolate, s: ChainedScope, out: (Isolate, T)|
            chained_entry(iso, old(outer).spec_region(), i, s) && #[trigger] call_ensures(
                f,
                (i, s),
                out,
            ) && child_done(iso, out.0) && region_closed(out.0, r.0) && out.1 == r.1,
{
    ensure_active(outer);
    let ghost pre = iso;
    let parent_region: usize = outer.region();
    outer.set_active(false);
    let mut child_iso = iso;
    let child: usize = child_iso.open_region();
    let scope = ChainedScope {
        isolate_id: outer.isolate(),
        region: child,
        parent_region,
        active: true,
        escaped: false,
    };
    proof {
        assert(chained_entry(pre, parent_region, child_iso, scope));
    }
    let ghost entry_iso = child_iso;
    let ghost entry_scope = scope;
    let out = f(child_iso, scope);
    let ghost callback_out = out;
    let (mut done_iso, result) = out;
    proof {
        assert(call_ensures(f, (entry_iso, entry_scope), callback_out));
        assert(child_done(pre, done_iso));
    }
    done_iso.close_region(child);
    proof {
        assert(done_iso.open_regions@ =~= pre.open_regions@);
        assert forall|h: Handle| h.valid(pre) implies h.valid(done_iso) by {
            assert(done_iso.region_of@[h.slot as int] == pre.region_of@[h.slot as int]);
            assert(done_iso.kinds@[h.slot as int] == pre.kinds@[h.slot as int]);
        }
    }
    outer.set_active(true);
    (done_iso, result)
}

impl Scope for RootScope {
    fn nested<T, F: FnOnce(Isolate, NestedScope) -> (Isolate, T)>(
        &mut self,
        iso: Isolate,
        f: F,
    ) -> (r: (Isolate, T)) {
        nest(self, iso, f)
    }

    fn chained<T, F: FnOnce(Isolate, ChainedScope) -> (Isolate, T)>(
        &mut self,
        iso: Isolate,
        f: F,
    ) -> (r: (Isolate, T)) {
        chain(self, iso, f)
    }
}

impl Scope for NestedScope {
    fn nested<T, F: FnOnce(Isolate, NestedScope) -> (Isolate, T)>(
        &mut self,
        iso: Isolate,
        f: F,
    ) -> (r: (Isolate, T)) {
        nest(self, iso, f)
    }

    fn chained<T, F: FnOnce(Isolate, ChainedScope) -> (Isolate, T)>(
        &mut self,
        iso: Isolate,
        f: F,
    ) -> (r: (Isolate, T)) {
        chain(self, iso, f)
    }
}

impl Scope for ChainedScope {
    fn nested<T, F: FnOnce(Isolate, NestedScope) -> (Isolate, T)>(
        &mut self,
        iso: Isolate,
        f: F,
    ) -> (r: (Isolate, T)) {
        nest(self, iso, f)
    }

    fn chained<T, F: FnOnce(Isolate, ChainedScope) -> (Isolate, T)>(
        &mut self,
        iso: Isolate,
        f: F,
    ) -> (r: (Isolate, T)) {
        chain(self, iso, f)
    }
}

impl ChainedScope {
    /// Promotes a handle from this chained region into the parent region,
    /// referencing the same underlying value. This is the sole sanctioned
    /// channel for moving a reference across a region boundary: the engine
    /// keeps the promoted value alive across the chained region's teardown,
    /// which copying the wrapper alone would not. Each chained scope supports
    /// exactly one escape.
    pub fn escape(&mut self, iso: &mut Isolate, local: Handle) -> (h: Handle)
        requires
            old(iso).wf(),
            old(self).active,
            !old(self).escaped,
            old(self).isolate_id == old(iso).id,
            local.valid(*old(iso)),
            local.region == old(self).region,
            old(iso).region_of@[local.slot as int] == old(self).region,
            old(iso).live(old(self).parent_region),
        ensures
            final(self).isolate_id == old(self).isolate_id,
            final(self).region == old(self).region,
            final(self).parent_region == old(self).parent_region,
            final(self).active == old(self).active,
            final(self).escaped,
            final(iso).id == old(iso).id,
            final(iso).kinds@ == old(iso).kinds@,
            final(iso).region_of@ == old(iso).region_of@.update(
                local.slot as int,
                old(self).parent_region,
            ),
            final(iso).open_regions@ == old(iso).open_regions@,
            final(iso).next_region == old(iso).next_region,
            final(iso).pending_error == old(iso).pending_error,
            final(iso).wf(),
            h == (Handle { slot: local.slot, kind: local.kind, region: old(self).parent_region }),
            h.valid(*final(iso)),
            forall|g: Handle| g.valid(*old(iso)) ==> g.valid(*final(iso)),
    {
        self.escaped = true;
        iso.region_of[local.slot] = self.parent_region;
        proof {
            let j = choose|j: int|
                0 <= j < iso.open_regions@.len() && iso.open_regions@[j] == self.parent_region;
            assert(self.parent_region < iso.next_region);
            assert forall|g: Handle| g.valid(*old(iso)) implies g.valid(*iso) by {
                if g.slot == local.slot {
                    assert(iso.region_of@[g.slot as int] == self.parent_region);
                } else {
                    assert(iso.region_of@[g.slot as int] == old(iso).region_of@[g.slot as int]);
                }
            }
        }
        Handle::new_internal(local.slot, local.kind, self.parent_region)
    }
}

/// Law: no handle whose region tag belongs to a torn-down region is valid, so
/// no handle operation accepts one. Together with the postcondition of
/// `nested`, which tears the child region down, a callback's return value
/// cannot retain a usable handle of the child region.
pub proof fn lemma_closed_region_handles_unusable(iso: Isolate, h: Handle)
    requires
        !iso.live(h.region),
    ensures
        !h.valid(iso),
{
}

/// Law: a handle created inside a chained region and promoted through escape
/// stays valid after the chained region is torn down, referencing the
/// identical underlying value, while the handle still tagged with the chained
/// region dies with it. `escaped` is the isolate after the promotion and
/// `closed` the isolate after the teardown, exactly as `escape` and `chained`
/// leave them.
pub proof fn lemma_escape_survives_teardown(
    pre: Isolate,
    escaped: Isolate,
    closed: Isolate,
    h: Handle,
    parent: usize,
)
    requires
        pre.wf(),
        h.valid(pre),
        pre.open_regions@.len() > 0,
        h.region == pre.open_regions@.last(),
        pre.region_of@[h.slot as int] == h.region,
        pre.live(parent),
        parent != h.region,
        escaped.kinds@ == pre.kinds@,
        escaped.region_of@ == pre.region_of@.update(h.slot as int, parent),
        escaped.open_regions@ == pre.open_regions@,
        closed.kinds@ == escaped.kinds@,
        closed.region_of@ == escaped.region_of@,
        closed.open_regions@ == escaped.open_regions@.drop_last(),
    ensures
        (Handle { slot: h.slot, kind: h.kind, region: parent }).valid(closed),
        (Handle { slot: h.slot, kind: h.kind, region: parent }).same_ref(h),
        !h.valid(closed),
{
    let j = choose|j: int|
        0 <= j < pre.open_regions@.len() && pre.open_regions@[j] == parent;
    assert(j != pre.open_regions@.len() - 1);
    assert(closed.open_regions@[j] == parent);
    assert(closed.live(parent));
    if closed.live(h.region) {
        let k = choose|k: int|
            0 <= k < closed.open_regions@.len() && closed.open_regions@[k] == h.region;
        assert(pre.open_regions@[k] == h.region);
        assert(pre.open_regions@[k] < pre.open_regions@[pre.open_regions@.len() - 1]);
        assert(false);
    }
}

/// Law: after a child region returns and the spawning scope is reactivated,
/// the scope satisfies every precondition for creating a handle that it
/// satisfied before the call; the reentrancy guard resets correctly.
pub proof fn lemma_reactivated_scope_usable<S: ScopeInternal>(pre: Isolate, post: Isolate, scope: S)
    requires
        scope.spec_active(),
        scope.spec_isolate() == pre.id,
        pre.live(scope.spec_region()),
        post.wf(),
        post.id == pre.id,
        post.open_regions@ == pre.open_regions@,
    ensures
        scope.spec_active(),
        scope.spec_isolate() == post.id,
        post.live(scope.spec_region()),
        post.wf(),
{
}

} // verus!
