use std::sync::Arc;
use vstd::prelude::*;

verus! {

/// Where a provider comes from: built into the host, or supplied by a plugin.
#[derive(Debug)]
pub enum ProviderSource {
    Core,
    /// The plugin's id or name.
    Plugin(String),
}

impl Clone for ProviderSource {
    fn clone(&self) -> (r: Self)
        ensures
            r == *self,
    {
        match self {
            ProviderSource::Core => ProviderSource::Core,
            ProviderSource::Plugin(name) => ProviderSource::Plugin(name.clone()),
        }
    }
}

/// A registered mod provider.
pub struct ProviderEntry<M: ?Sized> {
    pub id: String,
    pub source: ProviderSource,
    pub provider: Arc<M>,
}

/// A registered game, with the mod provider it depends on.
pub struct GameEntry<G: ?Sized> {
    pub id: String,
    pub source: ProviderSource,
    pub game: Arc<G>,
    pub required_provider_id: String,
}

/// Relies on `Arc::clone`: the copy points at the same value.
#[verifier::external_body]
pub(crate) fn share<T: ?Sized>(a: &Arc<T>) -> (r: Arc<T>)
    ensures
        r == *a,
{
    Arc::clone(a)
}

/// Whether two strings hold the same characters.
pub(crate) fn same_str(a: &str, b: &str) -> (r: bool)
    ensures
        r == (a@ == b@),
{
    let n = a.unicode_len();
    if n != b.unicode_len() {
        return false;
    }
    let mut i: usize = 0;
    while i < n
        invariant
            n == a@.len(),
            n == b@.len(),
            i <= n,
            forall|k: int| 0 <= k < i ==> a@[k] == b@[k],
        decreases n - i,
    {
        if a.get_char(i) != b.get_char(i) {
            return false;
        }
        i += 1;
    }
    assert(a@ =~= b@);
    true
}

} // verus!
