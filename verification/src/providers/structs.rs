//! Canonical domain entities shared by every adapter, and the wire
//! records of each backend that the adapters normalise.

pub mod jellyfin;
pub mod lidarr;
pub mod overseerr;
pub mod plex;
pub mod radarr;
pub mod readarr;
pub mod sonarr;
pub mod tautulli;

use vstd::prelude::*;
use vstd::string::*;

verus! {

/// A media-server account, equal by name.
pub struct User {
    pub name: String,
}

/// Where a session's traffic enters the server.
pub enum BandwidthLocation {
    Wan,
    Lan,
    Unknown,
}

impl BandwidthLocation {
    /// The wire value that maps to each location; anything else is
    /// `Unknown`.
    pub open spec fn spec_parse(s: Seq<char>) -> BandwidthLocation {
        if s == "wan"@ {
            BandwidthLocation::Wan
        } else if s == "lan"@ {
            BandwidthLocation::Lan
        } else {
            BandwidthLocation::Unknown
        }
    }

    pub fn parse(s: &str) -> (r: BandwidthLocation)
        ensures
            r == BandwidthLocation::spec_parse(s@),
    {
        if crate::text::str_eq(s, "wan") {
            BandwidthLocation::Wan
        } else if crate::text::str_eq(s, "lan") {
            BandwidthLocation::Lan
        } else {
            BandwidthLocation::Unknown
        }
    }

    /// The label value each location carries in the metrics output.
    pub open spec fn spec_label(self) -> Seq<char> {
        match self {
            BandwidthLocation::Wan => "WAN"@,
            BandwidthLocation::Lan => "LAN"@,
            BandwidthLocation::Unknown => "Undefined"@,
        }
    }

    pub fn label(&self) -> (r: &'static str)
        ensures
            r@ == self.spec_label(),
    {
        match self {
            BandwidthLocation::Wan => "WAN",
            BandwidthLocation::Lan => "LAN",
            BandwidthLocation::Unknown => "Undefined",
        }
    }
}

/// Bandwidth one session consumes, in kilobits per second.
pub struct Bandwidth {
    pub bandwidth: i64,
    pub location: BandwidthLocation,
}

/// How the server delivers a stream to the client.
pub enum StreamDecision {
    DirectPlay,
    DirectStream,
    Transcode,
    NoDecision,
}

impl StreamDecision {
    pub open spec fn spec_parse(s: Seq<char>) -> StreamDecision {
        if s == "directplay"@ {
            StreamDecision::DirectPlay
        } else if s == "directstream"@ {
            StreamDecision::DirectStream
        } else {
            StreamDecision::Transcode
        }
    }

    pub fn parse(s: &str) -> (r: StreamDecision)
        ensures
            r == StreamDecision::spec_parse(s@),
    {
        if crate::text::str_eq(s, "directplay") {
            StreamDecision::DirectPlay
        } else if crate::text::str_eq(s, "directstream") {
            StreamDecision::DirectStream
        } else {
            StreamDecision::Transcode
        }
    }

    /// The display string each decision carries in the metrics output.
    pub open spec fn spec_label(self) -> Seq<char> {
        match self {
            StreamDecision::DirectPlay => "Direct Play"@,
            StreamDecision::DirectStream => "Direct Stream"@,
            StreamDecision::Transcode => "Transcode"@,
            StreamDecision::NoDecision => "None"@,
        }
    }

    pub fn label(&self) -> (r: &'static str)
        ensures
            r@ == self.spec_label(),
    {
        match self {
            StreamDecision::DirectPlay => "Direct Play",
            StreamDecision::DirectStream => "Direct Stream",
            StreamDecision::Transcode => "Transcode",
            StreamDecision::NoDecision => "None",
        }
    }
}

/// Where a client connects from, as far as a lookup could tell.
/// Coordinates are carried as strings to avoid precision loss in
/// labels. On resolution failure the fields are literally `Unknown` /
/// `0.0`.
pub struct Location {
    pub city: String,
    pub country: String,
    pub ip_address: String,
    pub latitude: String,
    pub longitude: String,
}

/// What a geolocation lookup handed back for one IP.
pub struct GeoLookup {
    pub city: String,
    pub country: String,
    pub latitude: String,
    pub longitude: String,
}

/// The sentinel location: `Unknown` city and country, the original IP,
/// `0.0` coordinates.
pub open spec fn is_sentinel_location(l: Location, ip: Seq<char>) -> bool {
    &&& l.city@ == "Unknown"@
    &&& l.country@ == "Unknown"@
    &&& l.ip_address@ == ip
    &&& l.latitude@ == "0.0"@
    &&& l.longitude@ == "0.0"@
}

/// Turns the outcome of a geolocation lookup into a `Location`: the
/// looked-up fields when the lookup succeeded, the sentinel otherwise.
/// This never fails, whatever the lookup did.
pub fn location_from_lookup(ip: &str, lookup: Option<GeoLookup>) -> (r: Location)
    ensures
        match lookup {
            Some(g) => r.city@ == g.city@ && r.country@ == g.country@ && r.ip_address@ == ip@
                && r.latitude@ == g.latitude@ && r.longitude@ == g.longitude@,
            None => is_sentinel_location(r, ip@),
        },
{
    match lookup {
        Some(g) => Location {
            city: g.city,
            country: g.country,
            ip_address: String::from_str(ip),
            latitude: g.latitude,
            longitude: g.longitude,
        },
        None => Location {
            city: String::from_str("Unknown"),
            country: String::from_str("Unknown"),
            ip_address: String::from_str(ip),
            latitude: String::from_str("0.0"),
            longitude: String::from_str("0.0"),
        },
    }
}

/// The kind of content a library holds.
pub enum MediaType {
    Movie,
    Show,
    Music,
    Book,
    Unknown,
}

impl MediaType {
    pub open spec fn spec_parse(s: Seq<char>) -> MediaType {
        if s == "movie"@ {
            MediaType::Movie
        } else if s == "show"@ || s == "shows"@ {
            MediaType::Show
        } else if s == "music"@ {
            MediaType::Music
        } else if s == "book"@ {
            MediaType::Book
        } else {
            MediaType::Unknown
        }
    }

    pub fn parse(s: &str) -> (r: MediaType)
        ensures
            r == MediaType::spec_parse(s@),
    {
        if crate::text::str_eq(s, "movie") {
            MediaType::Movie
        } else if crate::text::str_eq(s, "show") || crate::text::str_eq(s, "shows") {
            MediaType::Show
        } else if crate::text::str_eq(s, "music") {
            MediaType::Music
        } else if crate::text::str_eq(s, "book") {
            MediaType::Book
        } else {
            MediaType::Unknown
        }
    }

    pub open spec fn spec_label(self) -> Seq<char> {
        match self {
            MediaType::Movie => "Movie"@,
            MediaType::Show => "Show"@,
            MediaType::Music => "Music"@,
            MediaType::Book => "Book"@,
            MediaType::Unknown => "Unknown"@,
        }
    }

    pub fn to_string(&self) -> (r: String)
        ensures
            r@ == self.spec_label(),
    {
        match self {
            MediaType::Movie => String::from_str("Movie"),
            MediaType::Show => String::from_str("Show"),
            MediaType::Music => String::from_str("Music"),
            MediaType::Book => String::from_str("Book"),
            MediaType::Unknown => String::from_str("Unknown"),
        }
    }
}

/// Per-library item counts. For a `Show` library `child_count` is
/// seasons and `grand_child_count` is episodes.
pub struct LibraryCount {
    pub name: String,
    pub media_type: MediaType,
    pub count: i64,
    pub child_count: Option<i64>,
    pub grand_child_count: Option<i64>,
}

/// A playback session observed at scrape time, normalised across
/// backends. `progress` is a whole percentage in `0..=100`.
pub struct Session {
    pub title: String,
    pub user: String,
    pub stream_decision: StreamDecision,
    pub media_type: String,
    pub state: String,
    pub progress: i64,
    pub quality: String,
    pub season_number: Option<String>,
    pub episode_number: Option<String>,
    pub address: String,
    pub location: Location,
    pub local: bool,
    pub secure: bool,
    pub relayed: bool,
    pub platform: String,
    pub bandwidth: Bandwidth,
}

impl Session {
    /// At most one of `local` and `relayed` is true.
    pub open spec fn wf(self) -> bool {
        !(self.local && self.relayed)
    }
}

/// Playback progress as a whole percentage, clamped into `0..=100`:
/// zero while nothing meaningful plays, one hundred at or past the
/// end.
pub open spec fn spec_progress_percent(position: int, duration: int) -> int {
    if duration <= 0 || position <= 0 {
        0
    } else if position >= duration {
        100
    } else {
        position * 100 / duration
    }
}

/// Computes playback progress from a position and a duration in the
/// same unit (milliseconds for Plex, ticks for Jellyfin).
pub fn progress_percent(position: i64, duration: i64) -> (r: i64)
    ensures
        r == spec_progress_percent(position as int, duration as int),
        0 <= r <= 100,
{
    if duration <= 0 || position <= 0 {
        0
    } else if position >= duration {
        100
    } else {
        let p = position as i128;
        let d = duration as i128;
        let q = p * 100 / d;
        proof {
            lemma_progress_range(p as int, d as int);
        }
        q as i64
    }
}

proof fn lemma_progress_range(p: int, d: int)
    requires
        0 < p < d,
    ensures
        0 <= p * 100 / d < 100,
{
    vstd::arithmetic::div_mod::lemma_div_pos_is_pos(p * 100, d);
    assert(p * 100 < d * 100) by (nonlinear_arith)
        requires
            0 < p < d,
    ;
    vstd::arithmetic::div_mod::lemma_multiply_divide_lt(p * 100, d, 100);
}

} // verus!
