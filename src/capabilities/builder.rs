use crate::capabilities::api_key_capability::{ApiKeyCapability, RequiresApiKey};
use crate::capabilities::base::{Capability, CapabilityRef};
use crate::capabilities::ids::CapabilityId;
use crate::capabilities::owner::OwnerRef;
use std::sync::Arc;
use vstd::prelude::*;

verus! {

/// Failure of a capability whose provider is gone.
#[derive(Debug, PartialEq, Eq)]
pub enum CapabilityError {
    /// The provider was dropped before the reference could be upgraded.
    ProviderDropped,
}

/// Relies on `Arc::from` on a `Box`: moves the boxed value into shared
/// ownership.
#[verifier::external_body]
fn into_shared<C: ?Sized>(b: Box<C>) -> (r: Arc<C>) {
    Arc::from(b)
}

/// Pushes `x`, stated over any element type so that the length fact also
/// holds for vectors of trait objects.
fn append<X>(v: &mut Vec<X>, x: X)
    ensures
        final(v)@.len() == old(v)@.len() + 1,
{
    v.push(x);
}

fn share_all<C: ?Sized>(items: Vec<Box<C>>) -> (r: Vec<Arc<C>>)
    ensures
        r@.len() == items@.len(),
{
    let mut items = items;
    let mut shared: Vec<Arc<C>> = Vec::new();
    let ghost total = items@.len();
    while items.len() > 0
        invariant
            shared@.len() + items@.len() == total,
        decreases items@.len(),
    {
        let b = items.remove(0);
        shared.push(into_shared(b));
    }
    shared
}

/// Fluent builder with which a provider assembles its capability list during
/// its own construction, from a non-owning reference to itself.
#[verifier::reject_recursive_types(T)]
pub struct CapabilityBuilder<T> {
    weak: OwnerRef<T>,
    caps: Vec<Box<dyn Capability>>,
    kinds: Ghost<Seq<CapabilityId>>,
}

impl<T> CapabilityBuilder<T> {
    /// The reference every attached delegate wraps.
    pub closed spec fn owner(&self) -> OwnerRef<T> {
        self.weak
    }

    /// The kinds of the delegates attached so far, in order.
    pub closed spec fn attached(&self) -> Seq<CapabilityId> {
        self.kinds@
    }

    pub closed spec fn wf(&self) -> bool {
        self.caps@.len() == self.kinds@.len()
    }

    /// A builder over a non-owning reference to `arc`'s value.
    pub fn new_from_arc(arc: &Arc<T>) -> (r: Self)
        ensures
            r.wf(),
            r.attached() == Seq::<CapabilityId>::empty(),
    {
        CapabilityBuilder { weak: OwnerRef::from_arc(arc), caps: Vec::new(), kinds: Ghost(Seq::empty()) }
    }

    /// A builder over an existing non-owning reference.
    pub fn new_from_weak(weak: OwnerRef<T>) -> (r: Self)
        ensures
            r.wf(),
            r.owner() == weak,
            r.attached() == Seq::<CapabilityId>::empty(),
    {
        CapabilityBuilder { weak, caps: Vec::new(), kinds: Ghost(Seq::empty()) }
    }

    /// The assembled capability list, one entry per attached delegate.
    pub fn finish(self) -> (r: Vec<CapabilityRef>)
        requires
            self.wf(),
        ensures
            r@.len() == self.attached().len(),
    {
        share_all(self.caps)
    }
}

impl<T: RequiresApiKey + 'static> CapabilityBuilder<T> {
    /// Attaches a "requires API key" delegate over the builder's reference.
    pub fn api_key(self) -> (r: Self)
        requires
            self.wf(),
        ensures
            r.wf(),
            r.owner() == self.owner(),
            r.attached() == self.attached().push(CapabilityId::REQUIRES_API_KEY),
    {
        let CapabilityBuilder { weak, caps, kinds } = self;
        let mut caps = caps;
        let delegate = ApiKeyCapability::new(weak.clone_ref());
        let boxed: Box<dyn Capability> = Box::new(delegate);
        append(&mut caps, boxed);
        CapabilityBuilder {
            weak,
            caps,
            kinds: Ghost(kinds@.push(CapabilityId::REQUIRES_API_KEY)),
        }
    }
}

} // verus!
