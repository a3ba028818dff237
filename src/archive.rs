pub mod helpers;
pub mod info;

pub use helpers::determine_root_dir;
pub use info::ArchiveInfo;
