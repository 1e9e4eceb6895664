//! The task model: one work unit per adapter operation per configured
//! instance, and the parallel result model the encoder consumes.

use vstd::prelude::*;
use vstd::string::*;

use crate::providers::jellyfin::Jellyfin;
use crate::providers::lidarr::{Lidarr, LidarrArtist};
use crate::providers::overseerr::{Overseerr, OverseerrRequest};
use crate::providers::plex::Plex;
use crate::providers::radarr::{Radarr, RadarrMovie};
use crate::providers::readarr::{Readarr, ReadarrAuthor};
use crate::providers::sonarr::{Sonarr, SonarrEpisode};
use crate::providers::structs::tautulli::Library;
use crate::providers::structs::{LibraryCount, Session, User};
use crate::providers::tautulli::{SessionSummary, Tautulli, UserWatch};

verus! {

/// One unit of upstream work: one operation against one configured
/// instance. The payload holds the instance settings; the HTTP client
/// that performs the calls lives outside the library.
pub enum Task {
    SonarrToday(Sonarr),
    SonarrMissing(Sonarr),
    Radarr(Radarr),
    Lidarr(Lidarr),
    Readarr(Readarr),
    Overseerr(Overseerr),
    Jellyseerr(Overseerr),
    TautulliSession(Tautulli),
    TautulliLibrary(Tautulli),
    TautulliHistory(Tautulli),
    PlexSession(Plex),
    PlexLibrary(Plex),
    JellyfinSession(Jellyfin),
    JellyfinLibrary(Jellyfin),
    Idle,
}

pub struct SonarrEpisodeResult {
    pub name: String,
    pub episodes: Vec<SonarrEpisode>,
}

pub struct SonarrMissingResult {
    pub name: String,
    pub episodes: Vec<SonarrEpisode>,
}

pub struct RadarrMovieResult {
    pub name: String,
    pub movies: Vec<RadarrMovie>,
}

pub struct LidarrArtistResult {
    pub name: String,
    pub artists: Vec<LidarrArtist>,
}

pub struct ReadarrAuthorResult {
    pub name: String,
    pub authors: Vec<ReadarrAuthor>,
}

pub struct OverseerrRequestResult {
    pub kind: String,
    pub requests: Vec<OverseerrRequest>,
}

pub struct TautulliSessionResult {
    pub sessions: Vec<SessionSummary>,
}

pub struct TautulliLibraryResult {
    pub libraries: Vec<Library>,
}

pub struct TautulliHistoryResult {
    pub total_plays: i64,
    pub plays_last_day: i64,
    pub user_watches: Vec<UserWatch>,
}

pub struct SessionResult {
    pub name: String,
    pub kind: String,
    pub users: Vec<User>,
    pub sessions: Vec<Session>,
}

pub struct LibraryResult {
    pub name: String,
    pub kind: String,
    pub libraries: Vec<LibraryCount>,
}

/// The normalised output of one task. A failed or cancelled task
/// contributes the empty result of its kind, never an error.
pub enum TaskResult {
    SonarrToday(SonarrEpisodeResult),
    SonarrMissing(SonarrMissingResult),
    Radarr(RadarrMovieResult),
    Lidarr(LidarrArtistResult),
    Readarr(ReadarrAuthorResult),
    Overseerr(OverseerrRequestResult),
    Jellyseerr(OverseerrRequestResult),
    TautulliSession(TautulliSessionResult),
    TautulliLibrary(TautulliLibraryResult),
    TautulliHistory(TautulliHistoryResult),
    PlexSession(SessionResult),
    PlexLibrary(LibraryResult),
    JellyfinSession(SessionResult),
    JellyfinLibrary(LibraryResult),
    Idle,
}

/// What the empty result of each task looks like: the matching result
/// variant, carrying the instance's name (and the fixed kind tag)
/// and no records at all.
pub open spec fn is_empty_result_for(r: TaskResult, t: Task) -> bool {
    match t {
        Task::SonarrToday(s) => r matches TaskResult::SonarrToday(x) && x.name@ == s.name@
            && x.episodes@.len() == 0,
        Task::SonarrMissing(s) => r matches TaskResult::SonarrMissing(x) && x.name@ == s.name@
            && x.episodes@.len() == 0,
        Task::Radarr(s) => r matches TaskResult::Radarr(x) && x.name@ == s.name@ && x.movies@.len()
            == 0,
        Task::Lidarr(s) => r matches TaskResult::Lidarr(x) && x.name@ == s.name@ && x.artists@.len()
            == 0,
        Task::Readarr(s) => r matches TaskResult::Readarr(x) && x.name@ == s.name@
            && x.authors@.len() == 0,
        Task::Overseerr(_) => r matches TaskResult::Overseerr(x) && x.kind@ == "overseerr"@
            && x.requests@.len() == 0,
        Task::Jellyseerr(_) => r matches TaskResult::Jellyseerr(x) && x.kind@ == "jellyseerr"@
            && x.requests@.len() == 0,
        Task::TautulliSession(_) => r matches TaskResult::TautulliSession(x) && x.sessions@.len()
            == 0,
        Task::TautulliLibrary(_) => r matches TaskResult::TautulliLibrary(x) && x.libraries@.len()
            == 0,
        Task::TautulliHistory(_) => r matches TaskResult::TautulliHistory(x) && x.total_plays == 0
            && x.plays_last_day == 0 && x.user_watches@.len() == 0,
        Task::PlexSession(s) => r matches TaskResult::PlexSession(x) && x.name@ == s.name@
            && x.kind@ == "plex"@ && x.users@.len() == 0 && x.sessions@.len() == 0,
        Task::PlexLibrary(s) => r matches TaskResult::PlexLibrary(x) && x.name@ == s.name@
            && x.kind@ == "plex"@ && x.libraries@.len() == 0,
        Task::JellyfinSession(s) => r matches TaskResult::JellyfinSession(x) && x.name@ == s.name@
            && x.kind@ == "jellyfin"@ && x.users@.len() == 0 && x.sessions@.len() == 0,
        Task::JellyfinLibrary(s) => r matches TaskResult::JellyfinLibrary(x) && x.name@ == s.name@
            && x.kind@ == "jellyfin"@ && x.libraries@.len() == 0,
        Task::Idle => r is Idle,
    }
}

/// A result that carries no records at all, whatever its kind.
pub open spec fn is_empty_result(r: TaskResult) -> bool {
    match r {
        TaskResult::SonarrToday(x) => x.episodes@.len() == 0,
        TaskResult::SonarrMissing(x) => x.episodes@.len() == 0,
        TaskResult::Radarr(x) => x.movies@.len() == 0,
        TaskResult::Lidarr(x) => x.artists@.len() == 0,
        TaskResult::Readarr(x) => x.authors@.len() == 0,
        TaskResult::Overseerr(x) => x.requests@.len() == 0,
        TaskResult::Jellyseerr(x) => x.requests@.len() == 0,
        TaskResult::TautulliSession(x) => x.sessions@.len() == 0,
        TaskResult::TautulliLibrary(x) => x.libraries@.len() == 0,
        TaskResult::TautulliHistory(x) => x.total_plays == 0 && x.plays_last_day == 0
            && x.user_watches@.len() == 0,
        TaskResult::PlexSession(x) => x.users@.len() == 0 && x.sessions@.len() == 0,
        TaskResult::PlexLibrary(x) => x.libraries@.len() == 0,
        TaskResult::JellyfinSession(x) => x.users@.len() == 0 && x.sessions@.len() == 0,
        TaskResult::JellyfinLibrary(x) => x.libraries@.len() == 0,
        TaskResult::Idle => true,
    }
}

/// The result a task contributes when its fetch fails or the scrape
/// deadline cancels it: empty, so that the scrape still succeeds.
pub fn empty_result_for(task: &Task) -> (r: TaskResult)
    ensures
        is_empty_result_for(r, *task),
        is_empty_result(r),
{
    match task {
        Task::SonarrToday(s) => TaskResult::SonarrToday(
            SonarrEpisodeResult { name: s.name.clone(), episodes: Vec::new() },
        ),
        Task::SonarrMissing(s) => TaskResult::SonarrMissing(
            SonarrMissingResult { name: s.name.clone(), episodes: Vec::new() },
        ),
        Task::Radarr(s) => TaskResult::Radarr(
            RadarrMovieResult { name: s.name.clone(), movies: Vec::new() },
        ),
        Task::Lidarr(s) => TaskResult::Lidarr(
            LidarrArtistResult { name: s.name.clone(), artists: Vec::new() },
        ),
        Task::Readarr(s) => TaskResult::Readarr(
            ReadarrAuthorResult { name: s.name.clone(), authors: Vec::new() },
        ),
        Task::Overseerr(_) => TaskResult::Overseerr(
            OverseerrRequestResult { kind: String::from_str("overseerr"), requests: Vec::new() },
        ),
        Task::Jellyseerr(_) => TaskResult::Jellyseerr(
            OverseerrRequestResult { kind: String::from_str("jellyseerr"), requests: Vec::new() },
        ),
        Task::TautulliSession(_) => TaskResult::TautulliSession(
            TautulliSessionResult { sessions: Vec::new() },
        ),
        Task::TautulliLibrary(_) => TaskResult::TautulliLibrary(
            TautulliLibraryResult { libraries: Vec::new() },
        ),
        Task::TautulliHistory(_) => TaskResult::TautulliHistory(
            TautulliHistoryResult { total_plays: 0, plays_last_day: 0, user_watches: Vec::new() },
        ),
        Task::PlexSession(s) => TaskResult::PlexSession(
            SessionResult {
                name: s.name.clone(),
                kind: String::from_str("plex"),
                users: Vec::new(),
                sessions: Vec::new(),
            },
        ),
        Task::PlexLibrary(s) => TaskResult::PlexLibrary(
            LibraryResult { name: s.name.clone(), kind: String::from_str("plex"), libraries: Vec::new() },
        ),
        Task::JellyfinSession(s) => TaskResult::JellyfinSession(
            SessionResult {
                name: s.name.clone(),
                kind: String::from_str("jellyfin"),
                users: Vec::new(),
                sessions: Vec::new(),
            },
        ),
        Task::JellyfinLibrary(s) => TaskResult::JellyfinLibrary(
            LibraryResult {
                name: s.name.clone(),
                kind: String::from_str("jellyfin"),
                libraries: Vec::new(),
            },
        ),
        Task::Idle => TaskResult::Idle,
    }
}

} // verus!
