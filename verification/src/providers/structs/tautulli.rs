//! Tautulli wire records, reduced to the fields the exporter reads.

use vstd::prelude::*;

verus! {

/// One active session from the activity endpoint. Tautulli reports
/// most numeric values as strings.
pub struct Session {
    pub media_type: String,
    pub progress_percent: String,
    pub quality_profile: String,
    pub user: String,
    pub title: String,
    pub grandparent_title: String,
    pub media_index: String,
    pub parent_media_index: String,
    pub video_full_resolution: String,
    pub video_decision: String,
    pub state: String,
    pub ip_address: String,
    pub ip_address_public: String,
}

/// One library section from the libraries endpoint.
pub struct Library {
    pub section_id: String,
    pub section_name: String,
    pub section_type: String,
    pub count: String,
    pub is_active: i64,
    pub parent_count: Option<String>,
    pub child_count: Option<String>,
}

/// The libraries endpoint's envelope.
pub struct LibraryResponse {
    pub data: Vec<Library>,
    pub draw: i64,
}

/// One watch-history record.
pub struct HistoryEntry {
    pub date: i64,
    pub user: String,
    pub friendly_name: String,
    pub media_type: String,
    pub watched_status: i64,
}

/// The history endpoint, reduced to the all-time total and the
/// fetched page of records.
pub struct History {
    pub records_total: i64,
    pub entries: Vec<HistoryEntry>,
}

} // verus!
