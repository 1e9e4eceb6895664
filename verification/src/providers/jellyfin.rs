//! The Jellyfin adapter: sessions, users and library counts.

use vstd::prelude::*;
use vstd::string::*;

use crate::config::{remove_trailing_slash, strip_trailing};
use crate::providers::structs::jellyfin::{
    JellyfinLibraryCounts, LibraryInfos, MediaStream, SessionResponse,
};
use crate::providers::structs::{
    Bandwidth, BandwidthLocation, LibraryCount, Location, MediaType, Session, StreamDecision, User,
    progress_percent, spec_progress_percent,
};
use crate::text::{i128_to_string, spec_int_string, str_eq};

verus! {

/// One configured Jellyfin instance.
pub struct Jellyfin {
    pub name: String,
    pub address: String,
    pub api_key: String,
}

impl Jellyfin {
    pub fn new(name: &str, address: &str, api_key: &str) -> (r: Jellyfin)
        ensures
            r.name@ == name@,
            r.address@ == strip_trailing(address@),
            r.api_key@ == api_key@,
    {
        Jellyfin {
            name: String::from_str(name),
            address: String::from_str(remove_trailing_slash(address)),
            api_key: String::from_str(api_key),
        }
    }

    /// The authorisation header value: `MediaBrowser Token="{key}"`.
    pub fn auth_header_value(&self) -> (r: String)
        ensures
            r@ == "MediaBrowser Token=\""@ + self.api_key@ + "\""@,
    {
        let mut s = String::from_str("MediaBrowser Token=\"");
        s.append(self.api_key.as_str());
        s.append("\"");
        s
    }

    /// The sessions endpoint.
    pub fn sessions_url(&self) -> (r: String)
        ensures
            r@ == self.address@ + "/Sessions"@,
    {
        let mut url = self.address.clone();
        url.append("/Sessions");
        url
    }

    /// The users endpoint.
    pub fn users_url(&self) -> (r: String)
        ensures
            r@ == self.address@ + "/Users"@,
    {
        let mut url = self.address.clone();
        url.append("/Users");
        url
    }

    /// The item-counts endpoint.
    pub fn counts_url(&self) -> (r: String)
        ensures
            r@ == self.address@ + "/Items/Counts"@,
    {
        let mut url = self.address.clone();
        url.append("/Items/Counts");
        url
    }
}

/// The first video stream of an item, if any.
pub open spec fn spec_first_video(streams: Seq<MediaStream>) -> Option<MediaStream>
    decreases streams.len(),
{
    if streams.len() == 0 {
        None
    } else if streams[0].type_field@ == "Video"@ {
        Some(streams[0])
    } else {
        spec_first_video(streams.drop_first())
    }
}

fn first_video(streams: &Vec<MediaStream>) -> (r: Option<&MediaStream>)
    ensures
        match r {
            Some(m) => spec_first_video(streams@) == Some(*m),
            None => spec_first_video(streams@) is None,
        },
{
    let mut i: usize = 0;
    proof {
        assert(streams@.skip(0) =~= streams@);
    }
    while i < streams.len()
        invariant
            i <= streams@.len(),
            spec_first_video(streams@) == spec_first_video(streams@.skip(i as int)),
        decreases streams@.len() - i,
    {
        proof {
            assert(streams@.skip(i as int)[0] == streams@[i as int]);
            assert(streams@.skip(i as int).drop_first() =~= streams@.skip(i + 1));
        }
        if str_eq(streams[i].type_field.as_str(), "Video") {
            return Some(&streams[i]);
        }
        i += 1;
    }
    proof {
        assert(streams@.skip(streams@.len() as int) =~= Seq::<MediaStream>::empty());
    }
    None
}

/// The display quality of a stream: its display title, else its
/// title, else `Unknown`.
pub open spec fn spec_stream_quality(m: MediaStream) -> Seq<char> {
    match m.display_title {
        Some(t) => t@,
        None => match m.title {
            Some(t) => t@,
            None => "Unknown"@,
        },
    }
}

/// What each session field normalises to.
pub open spec fn spec_jf_title(w: SessionResponse) -> Seq<char> {
    match w.now_playing_item {
        Some(it) => it.name@,
        None => ""@,
    }
}

pub open spec fn spec_jf_media_type(w: SessionResponse) -> Seq<char> {
    match w.now_playing_item {
        Some(it) => it.type_field@,
        None => "Unknown"@,
    }
}

pub open spec fn spec_jf_quality(w: SessionResponse) -> Seq<char> {
    match w.now_playing_item {
        Some(it) => match spec_first_video(it.media_streams@) {
            Some(m) => spec_stream_quality(m),
            None => "Unknown"@,
        },
        None => ""@,
    }
}

pub open spec fn spec_jf_progress(w: SessionResponse) -> int {
    match w.play_state.position_ticks {
        Some(p) => match w.now_playing_item {
            Some(it) => spec_progress_percent(p as int, it.run_time_ticks as int),
            None => 0,
        },
        None => 0,
    }
}

pub open spec fn spec_jf_state(w: SessionResponse) -> Seq<char> {
    match w.play_state.is_paused {
        Some(paused) => if paused {
            "Paused"@
        } else if w.now_playing_item is Some {
            "Playing"@
        } else {
            "Idle"@
        },
        None => "Idle"@,
    }
}

/// The stream decision: `DirectPlay` as reported; a transcode that
/// still copies the video stream is a `DirectStream`; no play method
/// at all means no decision.
pub open spec fn spec_jf_decision(w: SessionResponse) -> StreamDecision {
    match w.play_state.play_method {
        Some(m) => if m@ == "DirectPlay"@ {
            StreamDecision::DirectPlay
        } else if m@ == "Transcode"@ {
            match w.transcoding_info {
                Some(t) => if t.is_video_direct {
                    StreamDecision::DirectStream
                } else {
                    StreamDecision::Transcode
                },
                None => StreamDecision::Transcode,
            }
        } else {
            StreamDecision::Transcode
        },
        None => StreamDecision::NoDecision,
    }
}

pub open spec fn opt_index_string(n: Option<i64>) -> Option<Seq<char>> {
    match n {
        Some(v) => Some(spec_int_string(v as int)),
        None => None,
    }
}

pub open spec fn opt_str_matches(o: Option<String>, v: Option<Seq<char>>) -> bool {
    match o {
        Some(s) => v matches Some(t) && s@ == t,
        None => v is None,
    }
}

pub open spec fn spec_jf_season(w: SessionResponse) -> Option<Seq<char>> {
    match w.now_playing_item {
        Some(it) => opt_index_string(it.parent_index_number),
        None => None,
    }
}

pub open spec fn spec_jf_episode(w: SessionResponse) -> Option<Seq<char>> {
    match w.now_playing_item {
        Some(it) => opt_index_string(it.index_number),
        None => None,
    }
}

/// How one canonical session relates to its Jellyfin wire record and
/// the location its client IP resolved to. Jellyfin reports no
/// transport facts, so `local`, `secure` and `relayed` are false and
/// the bandwidth is unknown.
pub open spec fn session_matches_jellyfin(s: Session, w: SessionResponse, loc: Location) -> bool {
    &&& s.title@ == spec_jf_title(w)
    &&& s.user@ == w.user_name@
    &&& s.stream_decision == spec_jf_decision(w)
    &&& s.media_type@ == spec_jf_media_type(w)
    &&& s.state@ == spec_jf_state(w)
    &&& s.progress == spec_jf_progress(w)
    &&& s.quality@ == spec_jf_quality(w)
    &&& opt_str_matches(s.season_number, spec_jf_season(w))
    &&& opt_str_matches(s.episode_number, spec_jf_episode(w))
    &&& s.address@ == w.remote_end_point@
    &&& s.location == loc
    &&& s.local == false
    &&& s.secure == false
    &&& s.relayed == false
    &&& s.platform@ == w.client@
    &&& s.bandwidth.bandwidth == -1
    &&& s.bandwidth.location is Unknown
}

fn opt_index_to_string(n: &Option<i64>) -> (r: Option<String>)
    ensures
        opt_str_matches(r, opt_index_string(*n)),
{
    match n {
        Some(v) => Some(i128_to_string(*v as i128)),
        None => None,
    }
}

/// Normalises one Jellyfin session.
pub fn session_from_jellyfin(w: &SessionResponse, location: Location) -> (s: Session)
    ensures
        session_matches_jellyfin(s, *w, location),
        s.wf(),
{
    let mut title = String::from_str("");
    let mut media_type = String::from_str("Unknown");
    let mut quality = String::from_str("");
    let mut episode_number: Option<String> = None;
    let mut season_number: Option<String> = None;
    match &w.now_playing_item {
        Some(item) => {
            title = item.name.clone();
            media_type = item.type_field.clone();
            episode_number = opt_index_to_string(&item.index_number);
            season_number = opt_index_to_string(&item.parent_index_number);
            quality = match first_video(&item.media_streams) {
                Some(stream) => match &stream.display_title {
                    Some(t) => t.clone(),
                    None => match &stream.title {
                        Some(t) => t.clone(),
                        None => String::from_str("Unknown"),
                    },
                },
                None => String::from_str("Unknown"),
            };
        },
        None => {},
    }
    let progress = match &w.play_state.position_ticks {
        Some(position) => match &w.now_playing_item {
            Some(item) => progress_percent(*position, item.run_time_ticks),
            None => 0,
        },
        None => 0,
    };
    let state = match &w.play_state.is_paused {
        Some(paused) => {
            if *paused {
                String::from_str("Paused")
            } else if w.now_playing_item.is_some() {
                String::from_str("Playing")
            } else {
                String::from_str("Idle")
            }
        },
        None => String::from_str("Idle"),
    };
    let stream_decision = match &w.play_state.play_method {
        Some(method) => {
            if str_eq(method.as_str(), "DirectPlay") {
                StreamDecision::DirectPlay
            } else if str_eq(method.as_str(), "Transcode") {
                match &w.transcoding_info {
                    Some(info) => if info.is_video_direct {
                        StreamDecision::DirectStream
                    } else {
                        StreamDecision::Transcode
                    },
                    None => StreamDecision::Transcode,
                }
            } else {
                StreamDecision::Transcode
            }
        },
        None => StreamDecision::NoDecision,
    };
    Session {
        title,
        user: w.user_name.clone(),
        stream_decision,
        media_type,
        state,
        progress,
        quality,
        season_number,
        episode_number,
        address: w.remote_end_point.clone(),
        location,
        local: false,
        secure: false,
        relayed: false,
        platform: w.client.clone(),
        bandwidth: Bandwidth { bandwidth: -1, location: BandwidthLocation::Unknown },
    }
}

/// Normalises Jellyfin sessions, each with the location its client IP
/// resolved to.
pub fn sessions_from_jellyfin(wire: Vec<(SessionResponse, Location)>) -> (r: Vec<Session>)
    ensures
        r@.len() == wire@.len(),
        forall|i: int|
            0 <= i < r@.len() ==> #[trigger] session_matches_jellyfin(
                r@[i],
                wire@[i].0,
                wire@[i].1,
            ),
        forall|i: int| 0 <= i < r@.len() ==> (#[trigger] r@[i]).wf(),
{
    let mut r: Vec<Session> = Vec::new();
    let mut rest = wire;
    let ghost all = rest@;
    let total: usize = rest.len();
    proof {
        assert(all.skip(0) =~= all);
        assert(all.len() == total as int);
    }
    let mut i: usize = 0;
    while rest.len() > 0
        invariant
            all.len() <= usize::MAX,
            i + rest@.len() == all.len(),
            r@.len() == i,
            rest@ == all.skip(i as int),
            forall|j: int|
                0 <= j < i ==> #[trigger] session_matches_jellyfin(r@[j], all[j].0, all[j].1),
            forall|j: int| 0 <= j < i ==> (#[trigger] r@[j]).wf(),
        decreases rest@.len(),
    {
        let (w, loc) = rest.remove(0);
        r.push(session_from_jellyfin(&w, loc));
        proof {
            assert(all.skip(i as int)[0] == all[i as int]);
            assert(all.skip(i as int).remove(0) =~= all.skip(i + 1));
        }
        i += 1;
    }
    r
}

/// Maps Jellyfin users to canonical users.
pub fn users_from_jellyfin(wire: &Vec<crate::providers::structs::jellyfin::User>) -> (r: Vec<User>)
    ensures
        r@.len() == wire@.len(),
        forall|i: int| 0 <= i < r@.len() ==> (#[trigger] r@[i]).name@ == wire@[i].name@,
{
    let mut r: Vec<User> = Vec::new();
    let mut i: usize = 0;
    while i < wire.len()
        invariant
            i <= wire@.len(),
            r@.len() == i,
            forall|j: int| 0 <= j < i ==> (#[trigger] r@[j]).name@ == wire@[j].name@,
        decreases wire@.len() - i,
    {
        r.push(User { name: wire[i].name.clone() });
        i += 1;
    }
    r
}

/// Expands the single counts response into one library entry per
/// media kind: movies, shows (with episodes as grand-children), music
/// (albums with artists and songs), and books.
pub fn library_infos_from_counts(c: &JellyfinLibraryCounts) -> (r: Vec<LibraryInfos>)
    ensures
        r@.len() == 4,
        r@[0].name@ == "Movies"@ && r@[0].library_type@ == "Movie"@ && r@[0].count == c.movie_count
            && r@[0].child_count is None && r@[0].grand_child_count is None,
        r@[1].name@ == "Shows"@ && r@[1].library_type@ == "Shows"@ && r@[1].count == c.series_count
            && r@[1].child_count is None && r@[1].grand_child_count == Some(c.episode_count),
        r@[2].name@ == "Music"@ && r@[2].library_type@ == "Music"@ && r@[2].count == c.album_count
            && r@[2].child_count == Some(c.artist_count) && r@[2].grand_child_count == Some(
            c.song_count,
        ),
        r@[3].name@ == "Books"@ && r@[3].library_type@ == "Book"@ && r@[3].count == c.book_count
            && r@[3].child_count is None && r@[3].grand_child_count is None,
{
    let mut r: Vec<LibraryInfos> = Vec::new();
    r.push(
        LibraryInfos {
            name: String::from_str("Movies"),
            library_type: String::from_str("Movie"),
            count: c.movie_count,
            child_count: None,
            grand_child_count: None,
        },
    );
    r.push(
        LibraryInfos {
            name: String::from_str("Shows"),
            library_type: String::from_str("Shows"),
            count: c.series_count,
            child_count: None,
            grand_child_count: Some(c.episode_count),
        },
    );
    r.push(
        LibraryInfos {
            name: String::from_str("Music"),
            library_type: String::from_str("Music"),
            count: c.album_count,
            child_count: Some(c.artist_count),
            grand_child_count: Some(c.song_count),
        },
    );
    r.push(
        LibraryInfos {
            name: String::from_str("Books"),
            library_type: String::from_str("Book"),
            count: c.book_count,
            child_count: None,
            grand_child_count: None,
        },
    );
    r
}

/// The media kind a Jellyfin library type names; the expansion above
/// writes them capitalised.
pub open spec fn spec_jf_media_type_of(s: Seq<char>) -> MediaType {
    if s == "Movie"@ || s == "movie"@ {
        MediaType::Movie
    } else if s == "Shows"@ || s == "shows"@ || s == "Show"@ || s == "show"@ {
        MediaType::Show
    } else if s == "Music"@ || s == "music"@ {
        MediaType::Music
    } else if s == "Book"@ || s == "book"@ {
        MediaType::Book
    } else {
        MediaType::Unknown
    }
}

pub open spec fn library_count_matches_jf(c: LibraryCount, l: LibraryInfos) -> bool {
    &&& c.name@ == l.name@
    &&& c.media_type == spec_jf_media_type_of(l.library_type@)
    &&& c.count == l.count
    &&& c.child_count == l.child_count
    &&& c.grand_child_count == l.grand_child_count
}

fn jf_media_type_of(s: &str) -> (r: MediaType)
    ensures
        r == spec_jf_media_type_of(s@),
{
    if str_eq(s, "Movie") || str_eq(s, "movie") {
        MediaType::Movie
    } else if str_eq(s, "Shows") || str_eq(s, "shows") || str_eq(s, "Show") || str_eq(s, "show") {
        MediaType::Show
    } else if str_eq(s, "Music") || str_eq(s, "music") {
        MediaType::Music
    } else if str_eq(s, "Book") || str_eq(s, "book") {
        MediaType::Book
    } else {
        MediaType::Unknown
    }
}

/// Maps expanded library entries to canonical library counts.
pub fn library_counts_from_infos(wire: &Vec<LibraryInfos>) -> (r: Vec<LibraryCount>)
    ensures
        r@.len() == wire@.len(),
        forall|i: int|
            0 <= i < r@.len() ==> #[trigger] library_count_matches_jf(r@[i], wire@[i]),
{
    let mut r: Vec<LibraryCount> = Vec::new();
    let mut i: usize = 0;
    while i < wire.len()
        invariant
            i <= wire@.len(),
            r@.len() == i,
            forall|j: int| 0 <= j < i ==> #[trigger] library_count_matches_jf(r@[j], wire@[j]),
        decreases wire@.len() - i,
    {
        let w = &wire[i];
        r.push(
            LibraryCount {
                name: w.name.clone(),
                media_type: jf_media_type_of(w.library_type.as_str()),
                count: w.count,
                child_count: w.child_count,
                grand_child_count: w.grand_child_count,
            },
        );
        i += 1;
    }
    r
}

} // verus!
