use crate::capabilities::base::Capability;
use crate::capabilities::builder::CapabilityError;
use crate::capabilities::form::FormSchema;
use crate::capabilities::ids::REQUIRES_API_KEY;
use crate::capabilities::owner::OwnerRef;
use std::sync::Arc;
use vstd::prelude::*;

verus! {

/// What the runtime should do with a successfully provided key.
#[derive(Debug, Clone, Copy, PartialEq, Eq, PartialOrd, Ord)]
pub enum KeyAction {
    /// The runtime stores the key for later use.
    Store,
    /// The runtime does not store the key.
    DontStore,
}

/// Why a submitted API key was not accepted.
#[derive(Debug, PartialEq, Eq)]
pub enum ApiKeyValidationError {
    Empty,
    TooShort { min_len: usize },
    Invalid,
    /// The provider behind the capability could not be reached.
    ProviderError,
    Other(String),
}

/// One submitted form value.
#[derive(Debug, Clone)]
pub struct ApiSubmitResponse {
    pub id: String,
    pub value: String,
}

/// Behaviour of a provider that needs an API key from the user.
pub trait RequiresApiKey: Send + Sync {
    /// Called when the user submits a key.
    fn on_provided(&self, values: &Vec<ApiSubmitResponse>) -> Result<KeyAction, ApiKeyValidationError>;

    /// Called when the user declines to enter a key.
    fn on_rejected(&self) {
    }

    /// Whether the UI should prompt for a key.
    fn needs_prompt(&self, existing_key: Option<&str>) -> bool;

    /// The form used to collect the key.
    fn render(&self) -> Result<FormSchema, CapabilityError>;
}

/// Forwards a key submission to the provider while it lives; once it is gone
/// the outcome is `ProviderError`.
pub fn forward_on_provided<T: RequiresApiKey>(
    owner: &Result<Arc<T>, CapabilityError>,
    values: &Vec<ApiSubmitResponse>,
) -> (r: Result<KeyAction, ApiKeyValidationError>)
    ensures
        owner is Err ==> r == Err::<KeyAction, ApiKeyValidationError>(
            ApiKeyValidationError::ProviderError,
        ),
{
    match owner {
        Ok(p) => p.on_provided(values),
        Err(_) => Err(ApiKeyValidationError::ProviderError),
    }
}

/// Asks the provider whether to prompt while it lives; once it is gone the
/// answer is `false`.
pub fn forward_needs_prompt<T: RequiresApiKey>(
    owner: &Result<Arc<T>, CapabilityError>,
    existing_key: Option<&str>,
) -> (r: bool)
    ensures
        owner is Err ==> !r,
{
    match owner {
        Ok(p) => p.needs_prompt(existing_key),
        Err(_) => false,
    }
}

/// Asks the provider for its key form while it lives; once it is gone the
/// outcome is `ProviderDropped`.
pub fn forward_render<T: RequiresApiKey>(owner: &Result<Arc<T>, CapabilityError>) -> (r: Result<
    FormSchema,
    CapabilityError,
>)
    ensures
        owner is Err ==> (r matches Err(e) && e == CapabilityError::ProviderDropped),
{
    match owner {
        Ok(p) => p.render(),
        Err(_) => Err(CapabilityError::ProviderDropped),
    }
}

/// The "requires API key" capability of a provider, delegating to it through
/// a non-owning reference.
#[verifier::reject_recursive_types(T)]
pub struct ApiKeyCapability<T: RequiresApiKey + 'static>(OwnerRef<T>);

impl<T: RequiresApiKey + 'static> ApiKeyCapability<T> {
    pub closed spec fn owner(&self) -> OwnerRef<T> {
        self.0
    }

    /// A delegate over `inner`.
    pub fn new(inner: OwnerRef<T>) -> (r: Self)
        ensures
            r.owner() == inner,
    {
        ApiKeyCapability(inner)
    }

    /// A strong handle to the provider, or `ProviderDropped` once it is gone.
    pub fn inner(&self) -> (r: Result<Arc<T>, CapabilityError>)
        ensures
            r matches Err(e) ==> e == CapabilityError::ProviderDropped,
    {
        match self.upgrade() {
            Some(p) => Ok(p),
            None => Err(CapabilityError::ProviderDropped),
        }
    }

    fn upgrade(&self) -> Option<Arc<T>> {
        self.0.upgrade()
    }
}

impl<T: RequiresApiKey + 'static> Capability for ApiKeyCapability<T> {
    fn id(&self) -> (r: &'static str)
        ensures
            r == REQUIRES_API_KEY,
    {
        REQUIRES_API_KEY
    }

    fn as_requires_api_key(&self) -> (r: Option<&dyn RequiresApiKey>)
        ensures
            r is Some,
    {
        Some(self)
    }
}

impl<T: RequiresApiKey + 'static> RequiresApiKey for ApiKeyCapability<T> {
    fn on_provided(&self, values: &Vec<ApiSubmitResponse>) -> Result<KeyAction, ApiKeyValidationError> {
        forward_on_provided(&self.inner(), values)
    }

    fn on_rejected(&self) {
        if let Ok(p) = self.inner() {
            p.on_rejected();
        }
    }

    fn needs_prompt(&self, existing_key: Option<&str>) -> bool {
        forward_needs_prompt(&self.inner(), existing_key)
    }

    fn render(&self) -> Result<FormSchema, CapabilityError> {
        forward_render(&self.inner())
    }
}

} // verus!
