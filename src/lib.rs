//! Extensibility core of a mod manager: identifier normalization, the
//! provider/game registry with its frozen runtime context, and the capability
//! framework through which providers expose optional behaviour.

pub mod archive;
pub mod capabilities;
pub mod net;
pub mod registry;
pub mod runtime;
pub mod services;
pub mod traits;
