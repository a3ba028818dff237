use crate::capabilities::api_key_capability::RequiresApiKey;
use crate::capabilities::configurable_mods::ConfigurableModsBehavior;
use std::sync::Arc;
use vstd::prelude::*;

verus! {

/// An optional behaviour attached to a provider, discoverable by its id.
pub trait Capability: Send + Sync {
    /// String discriminator: lowercase, dot-separated, such as
    /// `vmm.game.installs_mod_loader`.
    fn id(&self) -> &'static str;

    /// This capability seen as "requires an API key", where it is one.
    fn as_requires_api_key(&self) -> Option<&dyn RequiresApiKey> {
        None
    }

    /// This capability seen as "configurable mods", where it is one.
    fn as_configurable_mods(&self) -> Option<&dyn ConfigurableModsBehavior> {
        None
    }
}

/// Shared handle to a capability.
pub type CapabilityRef = Arc<dyn Capability>;

} // verus!
