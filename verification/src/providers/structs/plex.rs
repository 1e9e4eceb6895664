//! Plex wire records, as its REST responses carry them.

use vstd::prelude::*;

verus! {

/// The sessions endpoint's container.
pub struct ActivityContainer {
    pub size: i64,
    pub metadata: Vec<SessionMetadata>,
}

/// The bandwidth-statistics endpoint's container.
pub struct StatisticsContainer {
    pub size: i64,
    pub account: Vec<StatUser>,
}

/// The library-sections endpoint's container.
pub struct LibraryContainer {
    pub size: i64,
    pub directory: Vec<Directory>,
}

/// The per-section items endpoint's container.
pub struct LibraryItemsContainer {
    pub size: i64,
    pub metadata: Vec<LibraryMetadata>,
}

pub struct Directory {
    pub key: String,
    pub title: String,
    pub type_field: String,
}

pub struct LibraryMetadata {
    pub type_field: String,
    pub title: String,
    pub leaf_count: Option<i64>,
    pub child_count: Option<i64>,
}

pub struct HistoryMetadata {
    pub type_field: String,
    pub history_key: String,
}

pub struct SessionMetadata {
    pub title: String,
    pub original_title: Option<String>,
    pub parent_title: Option<String>,
    pub grand_parent_title: Option<String>,
    pub index: Option<i64>,
    pub parent_index: Option<i64>,
    pub type_field: String,
    pub media: Vec<Media>,
    pub user: User,
    pub player: Player,
    pub session: Session,
    pub view_offset: i64,
}

pub struct Media {
    pub part: Vec<Part>,
    pub duration: i64,
}

pub struct Part {
    pub decision: String,
    pub container: String,
    pub stream: Vec<Stream>,
}

pub struct Stream {
    pub display_title: String,
    pub stream_type: i64,
    pub decision: Option<String>,
}

pub struct StatUser {
    pub name: String,
}

pub struct User {
    pub title: String,
}

pub struct Player {
    pub platform: String,
    pub state_field: String,
    pub local: bool,
    pub remote_public_address: String,
    pub relayed: bool,
    pub secure: bool,
    pub product: String,
    pub address: String,
}

/// Per-session transport facts.
pub struct Session {
    pub location: String,
    pub bandwidth: i64,
}

/// One library's counts after walking its items.
pub struct LibraryInfos {
    pub library_name: String,
    pub library_type: String,
    pub library_size: i64,
    pub library_child_size: Option<i64>,
    pub library_grand_child_size: Option<i64>,
}

} // verus!
