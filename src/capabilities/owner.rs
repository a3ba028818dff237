use std::sync::{Arc, Weak};
use vstd::prelude::*;

verus! {

/// A non-owning reference to a provider: it observes the provider's lifetime
/// and never extends it. It holds a `std::sync::Weak`.
#[verifier::external_body]
#[verifier::reject_recursive_types(T)]
pub struct OwnerRef<T>(Weak<T>);

impl<T> OwnerRef<T> {
    /// Relies on `Arc::downgrade`: a non-owning reference to `owner`'s value.
    #[verifier::external_body]
    pub fn from_arc(owner: &Arc<T>) -> (r: Self) {
        OwnerRef(Arc::downgrade(owner))
    }

    /// Relies on `Weak::upgrade`: a strong handle while the provider lives,
    /// `None` once it has been dropped. Which one comes back depends on other
    /// owners, so nothing more is stated.
    #[verifier::external_body]
    pub(crate) fn upgrade(&self) -> (r: Option<Arc<T>>) {
        self.0.upgrade()
    }

    /// Relies on `Weak::clone`: another reference to the same provider.
    #[verifier::external_body]
    pub fn clone_ref(&self) -> (r: Self) {
        OwnerRef(self.0.clone())
    }

    /// Relies on `Arc::new_cyclic`: allocates the provider, hands `build` a
    /// non-owning reference to it, and shares the value `build` returns.
    #[verifier::external_body]
    pub fn new_cyclic<F: FnOnce(&OwnerRef<T>) -> T>(build: F) -> (r: Arc<T>) {
        Arc::new_cyclic(|weak| build(&OwnerRef(weak.clone())))
    }
}

} // verus!
