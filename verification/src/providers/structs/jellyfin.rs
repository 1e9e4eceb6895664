//! Jellyfin wire records, as its REST responses carry them.

use vstd::prelude::*;

verus! {

pub struct SessionResponse {
    pub play_state: PlayState,
    pub user_name: String,
    pub device_type: Option<String>,
    pub client: String,
    pub now_playing_item: Option<NowPlayingItem>,
    pub transcoding_info: Option<TranscodingInfo>,
    pub remote_end_point: String,
}

pub struct PlayState {
    pub position_ticks: Option<i64>,
    pub is_paused: Option<bool>,
    pub play_method: Option<String>,
}

pub struct TranscodingInfo {
    pub is_video_direct: bool,
    pub is_audio_direct: bool,
}

pub struct NowPlayingItem {
    pub name: String,
    pub run_time_ticks: i64,
    pub type_field: String,
    pub index_number: Option<i64>,
    pub parent_index_number: Option<i64>,
    pub media_streams: Vec<MediaStream>,
}

pub struct MediaStream {
    pub codec: String,
    pub type_field: String,
    pub display_title: Option<String>,
    pub title: Option<String>,
}

pub struct JellyfinLibraryCounts {
    pub movie_count: i64,
    pub series_count: i64,
    pub episode_count: i64,
    pub artist_count: i64,
    pub program_count: i64,
    pub trailer_count: i64,
    pub song_count: i64,
    pub album_count: i64,
    pub music_video_count: i64,
    pub box_set_count: i64,
    pub book_count: i64,
    pub item_count: i64,
}

pub struct Users {
    pub users: Vec<User>,
}

pub struct User {
    pub name: String,
}

/// One library's counts after expanding the counts response.
pub struct LibraryInfos {
    pub name: String,
    pub library_type: String,
    pub count: i64,
    pub child_count: Option<i64>,
    pub grand_child_count: Option<i64>,
}

} // verus!
