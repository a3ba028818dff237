pub mod error;
pub mod id;
pub mod model;

pub use error::RegistryError;
pub use id::{is_core_id, normalize_id};
pub use model::{GameEntry, ProviderEntry, ProviderSource};
