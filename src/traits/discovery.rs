use vstd::prelude::*;

verus! {

/// Sort orders of the discovery page.
#[derive(Debug, Clone)]
pub enum SortOrder {
    Relevance,
    Downloads,
    Views,
    Likes,
    Newest,
    Updated,
}

/// Query parameters of the discovery page.
#[derive(Debug, Clone)]
pub struct DiscoveryQuery {
    /// The game to filter by.
    pub game_id: String,
    pub page: Option<u32>,
    pub page_size: Option<u32>,
    pub search: Option<String>,
    /// The filters applied.
    pub tags: Option<Vec<String>>,
    pub sort: Option<SortOrder>,
}

#[derive(Debug, Clone)]
pub struct PaginationMeta {
    pub current: u64,
    pub page_size: u64,
    pub total_pages: Option<u64>,
    pub total_items: Option<u64>,
}

#[derive(Debug, Clone)]
pub struct Tag {
    pub id: String,
    pub name: String,
}

#[derive(Debug, Clone)]
pub struct DiscoveryMeta {
    pub provider_id: String,
    pub game_id: String,
    pub pagination: PaginationMeta,
    pub applied_tags: Vec<String>,
    pub available_tags: Option<Vec<Tag>>,
}

#[derive(Debug, Clone)]
pub struct DiscoveryResult {
    pub meta: DiscoveryMeta,
    pub mods: Vec<ModSummary>,
}

#[derive(Debug, Clone)]
pub struct ModSummary {
    pub id: String,
    pub name: String,
    pub description: String,
    pub short_description: String,
    pub downloads: u64,
    pub views: u64,
    pub likes: u64,
    pub thumbnail_image: String,
    pub tags: Vec<String>,
    pub user_name: String,
    pub user_avatar: String,
}

#[derive(Debug, Clone)]
pub struct ModExtendedMetadata {
    pub header_image: String,
    pub carousel_images: Vec<String>,
    pub version: String,
    pub installed: bool,
    pub description: String,
}

#[derive(Debug, Clone)]
pub enum DiscoveryError {
    Network(String),
    InvalidQuery(String),
    /// The required provider is unavailable.
    ProviderUnavailable,
    Internal(String),
}

} // verus!
