use crate::capabilities::base::{Capability, CapabilityRef};
use crate::registry::model::same_str;
use vstd::prelude::*;

verus! {

/// Common surface of mod providers and game providers.
pub trait Provider: Send + Sync {
    fn id(&self) -> &'static str;

    /// The capabilities this provider offers.
    fn capabilities(&self) -> &[CapabilityRef];

    /// The first capability whose `id()` equals `id`.
    fn find_capability(&self, id: &str) -> Option<&dyn Capability> {
        let caps = self.capabilities();
        let mut i: usize = 0;
        while i < caps.len()
            invariant
                i <= caps@.len(),
            decreases caps@.len() - i,
        {
            let cap: &dyn Capability = &*caps[i];
            if same_str(cap.id(), id) {
                return Some(cap);
            }
            i += 1;
        }
        None
    }
}

} // verus!
