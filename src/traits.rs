pub mod discovery;
pub mod game_provider;
pub mod mod_provider;
pub mod provider;
