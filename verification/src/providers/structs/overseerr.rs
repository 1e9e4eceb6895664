//! Overseerr/Jellyseerr wire records.

use vstd::prelude::*;

verus! {

/// The envelope of the request-list endpoint.
pub struct Request {
    pub results: Vec<RequestRecord>,
}

/// One media request, as the wire carries it.
pub struct RequestRecord {
    pub status: i64,
    pub created_at: String,
    pub is_auto_request: bool,
    pub media: Media,
    pub requested_by: RequestedBy,
}

pub struct Media {
    pub id: i64,
    pub media_type: String,
    pub tmdb_id: i64,
    pub status: i64,
    pub created_at: String,
}

pub struct RequestedBy {
    pub permissions: i64,
    pub id: i64,
    pub plex_username: Option<String>,
    pub username: Option<String>,
}

/// The movie-details endpoint, reduced to the field read.
pub struct Movie {
    pub original_title: Option<String>,
}

/// The series-details endpoint, reduced to the field read.
pub struct Tv {
    pub name: String,
}

} // verus!
