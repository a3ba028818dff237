use vstd::prelude::*;

verus! {

pub const REQUIRES_API_KEY: &'static str = "vmm.mod.requires_api_key";
pub const INSTALLS_MOD_LOADER: &'static str = "vmm.game.installs_mod_loader";
pub const CONFIGURABLE_MODS: &'static str = "vmm.game.configurable_mods";

/// The capabilities known to the host.
#[derive(Debug, Clone, Copy, PartialEq, Eq)]
#[allow(non_camel_case_types)]
pub enum CapabilityId {
    REQUIRES_API_KEY,
    INSTALLS_MOD_LOADER,
    CONFIGURABLE_MODS,
}

impl CapabilityId {
    /// The string identifier of the capability.
    pub fn as_str(&self) -> (r: &'static str)
        ensures
            r == match self {
                CapabilityId::REQUIRES_API_KEY => REQUIRES_API_KEY,
                CapabilityId::INSTALLS_MOD_LOADER => INSTALLS_MOD_LOADER,
                CapabilityId::CONFIGURABLE_MODS => CONFIGURABLE_MODS,
            },
    {
        match self {
            CapabilityId::REQUIRES_API_KEY => REQUIRES_API_KEY,
            CapabilityId::INSTALLS_MOD_LOADER => INSTALLS_MOD_LOADER,
            CapabilityId::CONFIGURABLE_MODS => CONFIGURABLE_MODS,
        }
    }
}

} // verus!
