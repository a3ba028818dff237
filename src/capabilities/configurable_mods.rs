use crate::capabilities::base::Capability;
use crate::capabilities::builder::CapabilityError;
use crate::capabilities::form::{FormResponse, FormSchema};
use crate::capabilities::ids::CONFIGURABLE_MODS;
use crate::capabilities::owner::OwnerRef;
use std::sync::Arc;
use vstd::prelude::*;

verus! {

/// Behaviour of a game whose mods take user configuration.
pub trait ConfigurableModsBehavior: Send + Sync {
    /// The configuration form of a mod, if it has one.
    fn get_configurable(&self, mod_id: &str) -> Option<FormSchema>;

    /// Applies the values the user entered for a mod.
    fn apply_configuration(&self, mod_id: &str, response: Vec<FormResponse>);
}

/// Asks the game for a mod's configuration form while it lives; once it is
/// gone there is none.
pub fn forward_get_configurable<T: ConfigurableModsBehavior>(
    owner: &Result<Arc<T>, CapabilityError>,
    mod_id: &str,
) -> (r: Option<FormSchema>)
    ensures
        owner is Err ==> r is None,
{
    match owner {
        Ok(p) => p.get_configurable(mod_id),
        Err(_) => None,
    }
}

/// The "configurable mods" capability of a game, delegating to it through a
/// non-owning reference.
#[verifier::reject_recursive_types(T)]
pub struct ConfigurableModsCapability<T: ConfigurableModsBehavior + 'static>(OwnerRef<T>);

impl<T: ConfigurableModsBehavior + 'static> ConfigurableModsCapability<T> {
    pub closed spec fn owner(&self) -> OwnerRef<T> {
        self.0
    }

    /// A delegate over `inner`.
    pub fn new(inner: OwnerRef<T>) -> (r: Self)
        ensures
            r.owner() == inner,
    {
        ConfigurableModsCapability(inner)
    }

    /// A strong handle to the game, or `ProviderDropped` once it is gone.
    pub fn inner(&self) -> (r: Result<Arc<T>, CapabilityError>)
        ensures
            r matches Err(e) ==> e == CapabilityError::ProviderDropped,
    {
        match self.upgrade() {
            Some(p) => Ok(p),
            None => Err(CapabilityError::ProviderDropped),
        }
    }

    fn upgrade(&self) -> Option<Arc<T>> {
        self.0.upgrade()
    }
}

impl<T: ConfigurableModsBehavior + 'static> Capability for ConfigurableModsCapability<T> {
    fn id(&self) -> (r: &'static str)
        ensures
            r == CONFIGURABLE_MODS,
    {
        CONFIGURABLE_MODS
    }

    fn as_configurable_mods(&self) -> (r: Option<&dyn ConfigurableModsBehavior>)
        ensures
            r is Some,
    {
        Some(self)
    }
}

impl<T: ConfigurableModsBehavior + 'static> ConfigurableModsBehavior for ConfigurableModsCapability<T> {
    fn get_configurable(&self, mod_id: &str) -> Option<FormSchema> {
        forward_get_configurable(&self.inner(), mod_id)
    }

    fn apply_configuration(&self, mod_id: &str, response: Vec<FormResponse>) {
        if let Ok(p) = self.inner() {
            p.apply_configuration(mod_id, response);
        }
    }
}

} // verus!
