use crate::registry::model::ProviderSource;
use crate::traits::provider::Provider;
use vstd::prelude::*;

verus! {

#[derive(Debug, Clone)]
pub enum GameIcon {
    Path(String),
}

#[derive(Debug, Clone)]
pub struct GameMetadata {
    pub id: String,
    pub display_name: String,
    pub short_name: String,
    pub icon: GameIcon,
    pub provider_source: ProviderSource,
}

#[derive(Debug, Clone)]
pub struct ModInstallationMeta {
    pub provider_id: String,
    pub mod_id: String,
    pub display_name: String,
    pub icon: GameIcon,
    pub version: Option<String>,
    pub depends_on: Vec<String>,
    pub install_root: Option<String>,
}

/// A game the host can manage mods for. Installing and uninstalling mods
/// touch the file system and live beside the host's runtime.
pub trait GameProvider: Provider {
    /// The id of the mod provider this game gets its mods from.
    fn mod_provider_id(&self) -> &str;

    fn metadata(&self) -> GameMetadata;

    fn get_external_id(&self) -> &str;
}

} // verus!
