use vstd::prelude::*;

verus! {

/// Errors raised while registering providers or looking them up.
#[derive(Debug, Clone, PartialEq, Eq)]
pub enum RegistryError {
    /// The raw identifier does not normalize to a valid identifier.
    InvalidId(String),
    /// A mod provider with this normalized identifier is already registered.
    ProviderAlreadyExists(String),
    /// A game with this normalized identifier is already registered.
    GameAlreadyExists(String),
    /// A `core:` identifier was used by a provider that is not built in.
    ReservedCoreId(String),
    /// No entry with this identifier exists.
    NotFound(String),
}

} // verus!
