//! The model of one engine instance: value slots, their runtime kinds, and the
//! stack of open regions that bounds every handle's validity.

use crate::handle::{DowncastError, Handle};
use crate::scope::ScopeInternal;
use vstd::prelude::*;

verus! {

/// The closed set of value kinds the engine distinguishes. `Value` is the
/// canonical top of the supertype order; `Function` values are also objects.
#[derive(Clone, Copy, Debug, PartialEq, Eq, Structural)]
pub enum Kind {
    Value,
    Object,
    Function,
    Boolean,
    Number,
    Text,
}

/// The name of a kind, as diagnostic text uses it.
pub open spec fn kind_name(k: Kind) -> Seq<char> {
    match k {
        Kind::Value => "Value"@,
        Kind::Object => "Object"@,
        Kind::Function => "Function"@,
        Kind::Boolean => "Boolean"@,
        Kind::Number => "Number"@,
        Kind::Text => "Text"@,
    }
}

impl Kind {
    /// The kind's name, for diagnostic text.
    pub fn name(&self) -> (r: &'static str)
        ensures
            r@ == kind_name(*self),
    {
        match *self {
            Kind::Value => "Value",
            Kind::Object => "Object",
            Kind::Function => "Function",
            Kind::Boolean => "Boolean",
            Kind::Number => "Number",
            Kind::Text => "Text",
        }
    }
}

/// `sup` is reachable from `sub` by zero or more upcast steps.
pub open spec fn is_supertype(sup: Kind, sub: Kind) -> bool {
    sup == sub || sup == Kind::Value || (sup == Kind::Object && sub == Kind::Function)
}

/// Executable form of the supertype order.
pub fn kind_is_supertype(sup: Kind, sub: Kind) -> (r: bool)
    ensures
        r == is_supertype(sup, sub),
{
    sup == sub || sup == Kind::Value || (sup == Kind::Object && sub == Kind::Function)
}

/// One engine/collector instance, modelled as the data this subsystem reads of
/// it. Each allocated value lives in one slot; a slot stays alive exactly as
/// long as the region it belongs to is open. Open regions form a stack whose
/// identifiers grow strictly, so a torn-down region's identifier is never
/// reused.
pub struct Isolate {
    /// Distinguishes engine instances; scopes record which one they belong to.
    pub id: u64,
    /// Runtime kind of each allocated value slot.
    pub kinds: Vec<Kind>,
    /// The region that keeps each slot alive.
    pub region_of: Vec<usize>,
    /// Identifiers of the currently open regions, oldest first.
    pub open_regions: Vec<usize>,
    /// The next region identifier to hand out.
    pub next_region: usize,
    /// The pending host-visible type error, if one was thrown.
    pub pending_error: Option<DowncastError>,
}

impl Isolate {
    /// Region `r` is currently open.
    pub open spec fn live(self, r: usize) -> bool {
        self.open_regions@.contains(r)
    }

    /// Shape of the model: one region per slot, every recorded region already
    /// handed out, and the open-region stack strictly increasing.
    pub open spec fn wf(self) -> bool {
        &&& self.kinds@.len() == self.region_of@.len()
        &&& forall|i: int|
            0 <= i < self.open_regions@.len() ==> self.open_regions@[i] < self.next_region
        &&& forall|i: int, j: int|
            0 <= i < j < self.open_regions@.len() ==> self.open_regions@[i]
                < self.open_regions@[j]
        &&& forall|i: int| 0 <= i < self.region_of@.len() ==> self.region_of@[i] < self.next_region
    }

    /// A fresh engine instance with no values and no open regions.
    pub fn new(id: u64) -> (iso: Isolate)
        ensures
            iso.id == id,
            iso.kinds@ == Seq::<Kind>::empty(),
            iso.region_of@ == Seq::<usize>::empty(),
            iso.open_regions@ == Seq::<usize>::empty(),
            iso.next_region == 0,
            iso.pending_error is None,
            iso.wf(),
    {
        Isolate {
            id,
            kinds: Vec::new(),
            region_of: Vec::new(),
            open_regions: Vec::new(),
            next_region: 0,
            pending_error: None,
        }
    }

    /// Opens a fresh region on top of the stack and returns its identifier.
    pub(crate) fn open_region(&mut self) -> (r: usize)
        requires
            old(self).wf(),
            old(self).next_region < usize::MAX,
        ensures
            r == old(self).next_region,
            region_opened(*old(self), *final(self)),
            final(self).wf(),
            final(self).live(r),
            forall|q: usize| old(self).live(q) ==> final(self).live(q),
    {
        let r: usize = self.next_region;
        self.open_regions.push(r);
        self.next_region = r + 1;
        proof {
            assert(self.open_regions@[self.open_regions@.len() - 1] == r);
            assert forall|q: usize| old(self).live(q) implies self.live(q) by {
                let i = choose|i: int|
                    0 <= i < old(self).open_regions@.len() && old(self).open_regions@[i] == q;
                assert(self.open_regions@[i] == q);
            }
        }
        r
    }

    /// Tears down the region on top of the stack.
    pub(crate) fn close_region(&mut self, r: usize)
        requires
            old(self).wf(),
            old(self).open_regions@.len() > 0,
            old(self).open_regions@.last() == r,
        ensures
            region_closed(*old(self), *final(self)),
            final(self).wf(),
            !final(self).live(r),
            forall|q: usize| final(self).live(q) ==> old(self).live(q) && q != r,
            forall|q: usize| old(self).live(q) && q != r ==> final(self).live(q),
    {
        let ghost pre = *self;
        let _popped = self.open_regions.pop();
        proof {
            assert(self.open_regions@ =~= pre.open_regions@.drop_last());
            assert forall|q: usize| self.live(q) implies pre.live(q) && q != r by {
                let i = choose|i: int|
                    0 <= i < self.open_regions@.len() && self.open_regions@[i] == q;
                assert(pre.open_regions@[i] == q);
                assert(i < pre.open_regions@.len() - 1);
            }
            assert forall|q: usize| pre.live(q) && q != r implies self.live(q) by {
                let i = choose|i: int|
                    0 <= i < pre.open_regions@.len() && pre.open_regions@[i] == q;
                assert(i < pre.open_regions@.len() - 1);
                assert(self.open_regions@[i] == q);
            }
        }
    }

    /// Allocates a fresh engine value of the given runtime kind inside the
    /// given scope's region. This stands in for the engine-binding layer's
    /// value constructors, which are outside this subsystem; what matters here
    /// is the slot, its kind and the region that bounds it.
    pub fn new_value<S: ScopeInternal>(&mut self, scope: &S, kind: Kind) -> (h: Handle)
        requires
            old(self).wf(),
            scope.spec_active(),
            scope.spec_isolate() == old(self).id,
            old(self).live(scope.spec_region()),
        ensures
            final(self).wf(),
            final(self).id == old(self).id,
            final(self).kinds@ == old(self).kinds@.push(kind),
            final(self).region_of@ == old(self).region_of@.push(scope.spec_region()),
            final(self).open_regions@ == old(self).open_regions@,
            final(self).next_region == old(self).next_region,
            final(self).pending_error == old(self).pending_error,
            h == (Handle { slot: old(self).kinds.len(), kind, region: scope.spec_region() }),
            h.valid(*final(self)),
            forall|g: Handle| g.valid(*old(self)) ==> g.valid(*final(self)),
    {
        let slot: usize = self.kinds.len();
        let region: usize = scope.region();
        self.kinds.push(kind);
        self.region_of.push(region);
        proof {
            let i = choose|i: int|
                0 <= i < self.open_regions@.len() && self.open_regions@[i] == region;
            assert(region < self.next_region);
        }
        Handle::new_internal(slot, kind, region)
    }

    /// Records a host-visible type error naming the source and target kinds.
    /// This stands in for the engine's error-reporting channel.
    pub fn throw_type_error(&mut self, error: DowncastError)
        ensures
            final(self).pending_error == Some(error),
            same_but_error(*old(self), *final(self)),
    {
        self.pending_error = Some(error);
    }
}

/// `post` is `pre` with one fresh region pushed on the open stack.
pub open spec fn region_opened(pre: Isolate, post: Isolate) -> bool {
    &&& post.id == pre.id
    &&& post.kinds@ == pre.kinds@
    &&& post.region_of@ == pre.region_of@
    &&& post.open_regions@ == pre.open_regions@.push(pre.next_region)
    &&& post.next_region == pre.next_region + 1
    &&& post.pending_error == pre.pending_error
}

/// `post` is `pre` with the topmost region torn down.
pub open spec fn region_closed(pre: Isolate, post: Isolate) -> bool {
    &&& post.id == pre.id
    &&& post.kinds@ == pre.kinds@
    &&& post.region_of@ == pre.region_of@
    &&& post.open_regions@ == pre.open_regions@.drop_last()
    &&& post.next_region == pre.next_region
    &&& post.pending_error == pre.pending_error
}

/// Every slot that exists in `pre` exists unchanged in `post`.
pub open spec fn slots_preserved(pre: Isolate, post: Isolate) -> bool {
    &&& pre.kinds@.len() <= post.kinds@.len()
    &&& forall|i: int|
        0 <= i < pre.kinds@.len() ==> post.kinds@[i] == pre.kinds@[i] && post.region_of@[i]
            == pre.region_of@[i]
}

/// Law: opening a fresh region keeps the isolate well-formed, opens exactly
/// the fresh region, and closes none. A child callback starts from such a
/// state, so this is what it may assume on entry.
pub proof fn lemma_region_opened_wf(pre: Isolate, post: Isolate)
    requires
        pre.wf(),
        region_opened(pre, post),
    ensures
        post.wf(),
        post.live(pre.next_region),
        forall|q: usize| pre.live(q) ==> post.live(q),
{
    assert(post.open_regions@[post.open_regions@.len() - 1] == pre.next_region);
    assert forall|q: usize| pre.live(q) implies post.live(q) by {
        let j = choose|j: int|
            0 <= j < pre.open_regions@.len() && pre.open_regions@[j] == q;
        assert(post.open_regions@[j] == q);
    }
}

/// `pre` and `post` agree on everything but the pending error.
pub open spec fn same_but_error(pre: Isolate, post: Isolate) -> bool {
    &&& post.id == pre.id
    &&& post.kinds@ == pre.kinds@
    &&& post.region_of@ == pre.region_of@
    &&& post.open_regions@ == pre.open_regions@
    &&& post.next_region == pre.next_region
}

} // verus!
