pub mod api_key_capability;
pub mod base;
pub mod builder;
pub mod configurable_mods;
pub mod form;
pub mod ids;
pub mod owner;
