//! Handles: region-bounded references to collector-owned values, with the
//! type-safe upcast and the runtime-checked downcast between value kinds.

use crate::isolate::{is_supertype, kind_is_supertype, kind_name, same_but_error, Isolate, Kind};
use vstd::prelude::*;
use vstd::string::StringExecFns;

verus! {

/// A reference to one collector-owned value. It carries the slot the value
/// lives in, the kind the handle is declared at (a supertype of the slot's
/// runtime kind), and the tag of the region that produced it. Copying a handle
/// duplicates the wrapper, never the value; the collector owns the memory.
#[derive(Clone, Copy, Debug)]
pub struct Handle {
    /// The engine-local slot of the referenced value.
    pub slot: usize,
    /// The kind this handle is declared at.
    pub kind: Kind,
    /// The region whose lifetime bounds every use of this handle.
    pub region: usize,
}

/// An error representing a failed downcast. It carries only the source and
/// target kind tags and never implies a collector-memory failure: the handle
/// that failed to downcast remains valid and usable.
#[derive(Clone, Copy, Debug, PartialEq, Eq, Structural)]
pub struct DowncastError {
    /// The kind the handle was declared at.
    pub from: Kind,
    /// The kind the downcast asked for.
    pub to: Kind,
}

impl DowncastError {
    /// The human-readable diagnostic, naming the source and target kinds; the
    /// throw path hands it to the host.
    pub fn message(&self) -> (r: String)
        ensures
            r@ == "failed to downcast "@ + kind_name(self.from) + " to "@ + kind_name(self.to),
    {
        let mut text = String::from_str("failed to downcast ");
        text.append(self.from.name());
        text.append(" to ");
        text.append(self.to.name());
        text
    }
}

/// The result of a downcast: the narrowed handle, or the mismatch error.
pub type DowncastResult = Result<Handle, DowncastError>;

/// A pending host-visible error: the throwing side records the detail on the
/// isolate and hands this marker back.
#[derive(Clone, Copy, Debug, PartialEq, Eq, Structural)]
pub struct Throw;

/// The result of an operation that may throw a host-visible error.
pub type JsResult = Result<Handle, Throw>;

impl Handle {
    /// The handle may be used with `iso`: its own region tag is still open,
    /// the region keeping its slot alive is still open, and its declared kind
    /// is a supertype of the slot's runtime kind.
    pub open spec fn valid(self, iso: Isolate) -> bool {
        &&& (self.slot as int) < iso.kinds@.len()
        &&& iso.live(self.region)
        &&& iso.live(iso.region_of@[self.slot as int])
        &&& is_supertype(self.kind, iso.kinds@[self.slot as int])
    }

    /// The concrete runtime kind of the referenced value.
    pub open spec fn runtime_kind(self, iso: Isolate) -> Kind {
        iso.kinds@[self.slot as int]
    }

    /// Two handles refer to the identical underlying collector slot.
    pub open spec fn same_ref(self, other: Handle) -> bool {
        self.slot == other.slot
    }

    /// The handle an upcast returns: same slot, same region tag, wider kind.
    pub open spec fn upcast_spec(self, target: Kind) -> Handle {
        Handle { slot: self.slot, kind: target, region: self.region }
    }

    /// Whether a downcast of this handle to `target` succeeds: the engine's
    /// runtime kind tag must match the target exactly.
    pub open spec fn downcast_ok(self, iso: Isolate, target: Kind) -> bool {
        self.runtime_kind(iso) == target
    }

    /// The handle a successful downcast returns: the same slot and region
    /// tag, declared at the target kind.
    pub open spec fn downcast_spec(self, target: Kind) -> Handle {
        Handle { slot: self.slot, kind: target, region: self.region }
    }

    /// Wraps an already-valid reference for the current scope. Only scope and
    /// isolate code create handles; embedder code receives them.
    pub(crate) fn new_internal(slot: usize, kind: Kind, region: usize) -> (h: Handle)
        ensures
            h == (Handle { slot, kind, region }),
    {
        Handle { slot, kind, region }
    }

    /// Safely upcast a handle to a supertype of its declared kind.
    ///
    /// This is a pure reinterpretation: no engine access, no scope check, and
    /// the region tag is inherited unchanged, since no new region is entered.
    pub fn upcast(&self, target: Kind) -> (h: Handle)
        requires
            is_supertype(target, self.kind),
        ensures
            h == self.upcast_spec(target),
    {
        Handle { slot: self.slot, kind: target, region: self.region }
    }

    /// Tests whether the referenced value is an instance of the given kind.
    /// Side-effect-free and never fails.
    pub fn is_a(&self, iso: &Isolate, target: Kind) -> (r: bool)
        requires
            self.valid(*iso),
        ensures
            r == is_supertype(target, self.runtime_kind(*iso)),
    {
        let runtime: Kind = iso.kinds[self.slot];
        kind_is_supertype(target, runtime)
    }

    /// Attempts to downcast the handle to the given kind. On a match the
    /// narrowed handle references the same underlying value, with no copy and
    /// no allocation; on a mismatch the error is returned as a value and no
    /// host-visible error is raised, so the engine may still be used.
    pub fn downcast(&self, iso: &Isolate, target: Kind) -> (r: DowncastResult)
        requires
            self.valid(*iso),
        ensures
            self.downcast_ok(*iso, target) ==> r == Ok::<Handle, DowncastError>(
                self.downcast_spec(target),
            ),
            !self.downcast_ok(*iso, target) ==> r == Err::<Handle, DowncastError>(
                (DowncastError { from: self.kind, to: target }),
            ),
    {
        let runtime: Kind = iso.kinds[self.slot];
        if runtime == target {
            Ok(Handle { slot: self.slot, kind: target, region: self.region })
        } else {
            Err(DowncastError { from: self.kind, to: target })
        }
    }

    /// Attempts to downcast the handle to the given kind, recording a
    /// host-visible type error on failure. A convenient shorthand for
    /// `downcast` followed by `or_throw`.
    pub fn downcast_or_throw(&self, iso: &mut Isolate, target: Kind) -> (r: JsResult)
        requires
            self.valid(*old(iso)),
        ensures
            self.downcast_ok(*old(iso), target) ==> r == Ok::<Handle, Throw>(
                self.downcast_spec(target),
            ) && *final(iso) == *old(iso),
            !self.downcast_ok(*old(iso), target) ==> r == Err::<Handle, Throw>(Throw)
                && final(iso).pending_error == Some(
                (DowncastError { from: self.kind, to: target }),
            ) && same_but_error(*old(iso), *final(iso)),
    {
        let attempt: DowncastResult = self.downcast(iso, target);
        or_throw(attempt, iso)
    }

    /// Engine-level identity of two handles' underlying values, the host
    /// language's strict equality; never a structural comparison of contents.
    pub fn strict_equals(&self, iso: &Isolate, other: &Handle) -> (r: bool)
        requires
            self.valid(*iso),
            other.valid(*iso),
        ensures
            r == self.same_ref(*other),
    {
        self.slot == other.slot
    }
}

/// Escalates a downcast failure to the host's error-reporting channel: on
/// `Ok` the handle passes through untouched, on `Err` the source and target
/// kinds are recorded on the isolate as a pending type error.
pub fn or_throw(attempt: DowncastResult, iso: &mut Isolate) -> (r: JsResult)
    ensures
        attempt is Ok ==> r == Ok::<Handle, Throw>(attempt->Ok_0) && *final(iso) == *old(iso),
        attempt is Err ==> r == Err::<Handle, Throw>(Throw) && final(iso).pending_error == Some(
            attempt->Err_0,
        ) && same_but_error(*old(iso), *final(iso)),
{
    match attempt {
        Ok(h) => Ok(h),
        Err(e) => {
            iso.throw_type_error(e);
            Err(Throw)
        },
    }
}

/// Law: a downcast to the handle's exact runtime kind succeeds, and the
/// handle it returns is valid and refers to the identical underlying value.
pub proof fn lemma_downcast_exact_kind(iso: Isolate, h: Handle)
    requires
        h.valid(iso),
        h.runtime_kind(iso) == h.kind,
    ensures
        h.downcast_ok(iso, h.kind),
        h.downcast_spec(h.kind).valid(iso),
        h.downcast_spec(h.kind).same_ref(h),
{
}

/// Law: upcasting a handle to a supertype of its declared kind keeps it
/// valid, keeps its region tag, and refers to the identical underlying value.
pub proof fn lemma_upcast_valid(iso: Isolate, h: Handle, target: Kind)
    requires
        h.valid(iso),
        is_supertype(target, h.kind),
    ensures
        h.upcast_spec(target).valid(iso),
        h.upcast_spec(target).region == h.region,
        h.upcast_spec(target).same_ref(h),
{
}

/// Law: upcasting to any supertype and downcasting back succeeds whenever the
/// handle's runtime kind is exactly its declared kind, and returns the
/// identical handle.
pub proof fn lemma_upcast_downcast_roundtrip(iso: Isolate, h: Handle, target: Kind)
    requires
        h.valid(iso),
        h.runtime_kind(iso) == h.kind,
        is_supertype(target, h.kind),
    ensures
        ({
            let up = h.upcast_spec(target);
            up.valid(iso) && up.downcast_ok(iso, h.kind) && up.downcast_spec(h.kind) == h
        }),
{
}

/// Law: a downcast to any kind other than the value's runtime kind fails, and
/// the handle stays valid afterwards: failure has no invalidation side effect.
pub proof fn lemma_downcast_mismatch(iso: Isolate, h: Handle, target: Kind)
    requires
        h.valid(iso),
        target != h.runtime_kind(iso),
    ensures
        !h.downcast_ok(iso, target),
        h.valid(iso),
{
}

} // verus!
