use crate::traits::provider::Provider;
use std::path::PathBuf;
use vstd::prelude::*;

verus! {

#[verifier::external_type_specification]
#[verifier::external_body]
pub struct ExPathBuf(PathBuf);

/// Feature flags of a provider; superseded by capabilities.
#[derive(Default, Debug)]
pub struct ModProviderFeatures {
    pub supports_endorsements: bool,
    pub requires_api_token: bool,
    pub mod_multi_file: bool,
}

/// Progress or outcome of a mod download.
pub enum ModDownloadResult {
    Failed(String),
    InProgress(u8),
    Completed(PathBuf),
    Cancelled,
    CannotComplete(String),
}

/// A source of mods. Its network operations (download, discovery, extended
/// metadata) are asynchronous and live beside the host's runtime.
pub trait ModProvider: Provider {
    /// The provider's identifier as an owned string.
    fn register(&self) -> String {
        self.id().to_string()
    }
}

} // verus!
