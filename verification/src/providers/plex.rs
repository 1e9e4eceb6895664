//! The Plex adapter: sessions, bandwidth users, library sizes and
//! watch history.

use vstd::prelude::*;
use vstd::string::*;

use crate::config::{remove_trailing_slash, strip_trailing};
use crate::providers::structs::plex::{
    Directory, HistoryMetadata, LibraryInfos, LibraryItemsContainer, LibraryMetadata, Part,
    SessionMetadata, StatisticsContainer, Stream,
};
use crate::providers::structs::{
    Bandwidth, BandwidthLocation, LibraryCount, Location, MediaType, Session, StreamDecision, User,
    progress_percent, spec_progress_percent,
};
use crate::text::{i128_to_string, spec_int_string, str_eq};

verus! {

/// One configured Plex instance.
pub struct Plex {
    pub name: String,
    pub address: String,
    pub token: String,
}

impl Plex {
    pub fn new(name: &str, address: &str, token: &str) -> (r: Plex)
        ensures
            r.name@ == name@,
            r.address@ == strip_trailing(address@),
            r.token@ == token@,
    {
        Plex {
            name: String::from_str(name),
            address: String::from_str(remove_trailing_slash(address)),
            token: String::from_str(token),
        }
    }

    /// The sessions endpoint.
    pub fn sessions_url(&self) -> (r: String)
        ensures
            r@ == self.address@ + "/status/sessions"@,
    {
        let mut url = self.address.clone();
        url.append("/status/sessions");
        url
    }

    /// The history endpoint.
    pub fn history_url(&self) -> (r: String)
        ensures
            r@ == self.address@ + "/status/sessions/history/all"@,
    {
        let mut url = self.address.clone();
        url.append("/status/sessions/history/all");
        url
    }

    /// The library-sections endpoint.
    pub fn libraries_url(&self) -> (r: String)
        ensures
            r@ == self.address@ + "/library/sections"@,
    {
        let mut url = self.address.clone();
        url.append("/library/sections");
        url
    }

    /// The per-section items endpoint.
    pub fn library_items_url(&self, key: &str) -> (r: String)
        ensures
            r@ == self.address@ + "/library/sections/"@ + key@ + "/all"@,
    {
        let mut url = self.address.clone();
        url.append("/library/sections/");
        url.append(key);
        url.append("/all");
        url
    }

    /// The bandwidth-statistics endpoint.
    pub fn statistics_url(&self) -> (r: String)
        ensures
            r@ == self.address@ + "/statistics/bandwidth?timespan=0"@,
    {
        let mut url = self.address.clone();
        url.append("/statistics/bandwidth?timespan=0");
        url
    }
}

/// The part a session streams from: the first part of the first media
/// item, when there is one.
pub open spec fn spec_px_first_part(meta: SessionMetadata) -> Option<Part> {
    if meta.media@.len() > 0 && meta.media@[0].part@.len() > 0 {
        Some(meta.media@[0].part@[0])
    } else {
        None
    }
}

/// The first video stream of a part (stream type 1), if any.
pub open spec fn spec_px_video_stream(streams: Seq<Stream>) -> Option<Stream>
    decreases streams.len(),
{
    if streams.len() == 0 {
        None
    } else if streams[0].stream_type == 1 {
        Some(streams[0])
    } else {
        spec_px_video_stream(streams.drop_first())
    }
}

fn px_video_stream(streams: &Vec<Stream>) -> (r: Option<&Stream>)
    ensures
        match r {
            Some(m) => spec_px_video_stream(streams@) == Some(*m),
            None => spec_px_video_stream(streams@) is None,
        },
{
    let mut i: usize = 0;
    proof {
        assert(streams@.skip(0) =~= streams@);
    }
    while i < streams.len()
        invariant
            i <= streams@.len(),
            spec_px_video_stream(streams@) == spec_px_video_stream(streams@.skip(i as int)),
        decreases streams@.len() - i,
    {
        proof {
            assert(streams@.skip(i as int)[0] == streams@[i as int]);
            assert(streams@.skip(i as int).drop_first() =~= streams@.skip(i + 1));
        }
        if streams[i].stream_type == 1 {
            return Some(&streams[i]);
        }
        i += 1;
    }
    proof {
        assert(streams@.skip(streams@.len() as int) =~= Seq::<Stream>::empty());
    }
    None
}

pub open spec fn spec_px_quality(meta: SessionMetadata) -> Seq<char> {
    match spec_px_first_part(meta) {
        Some(p) => match spec_px_video_stream(p.stream@) {
            Some(s) => s.display_title@,
            None => "Unknown"@,
        },
        None => "Unknown"@,
    }
}

/// The video stream's own decision, with `transcode` assumed when it
/// reports none.
pub open spec fn spec_px_video_decision(p: Part) -> Seq<char> {
    match spec_px_video_stream(p.stream@) {
        Some(s) => match s.decision {
            Some(d) => d@,
            None => "transcode"@,
        },
        None => "transcode"@,
    }
}

/// The stream decision: the container's `directplay` stands;
/// a `transcode` whose video stream is only copied is a
/// `DirectStream`; a session without any stream part has no decision.
pub open spec fn spec_px_decision(meta: SessionMetadata) -> StreamDecision {
    match spec_px_first_part(meta) {
        Some(p) => if p.decision@ == "directplay"@ {
            StreamDecision::DirectPlay
        } else if p.decision@ == "transcode"@ {
            if spec_px_video_decision(p) == "copy"@ {
                StreamDecision::DirectStream
            } else {
                StreamDecision::Transcode
            }
        } else {
            StreamDecision::Transcode
        },
        None => StreamDecision::NoDecision,
    }
}

pub open spec fn spec_px_duration(meta: SessionMetadata) -> int {
    if meta.media@.len() > 0 {
        meta.media@[0].duration as int
    } else {
        0
    }
}

pub open spec fn spec_px_title(meta: SessionMetadata) -> Seq<char> {
    match meta.grand_parent_title {
        Some(t) => t@,
        None => meta.title@,
    }
}

pub open spec fn opt_index_string(n: Option<i64>) -> Option<Seq<char>> {
    match n {
        Some(v) => Some(spec_int_string(v as int)),
        None => None,
    }
}

/// How one canonical session relates to its Plex wire record and the
/// location its public address resolved to. `relayed` yields to
/// `local` so that at most one of the two is set.
pub open spec fn session_matches_plex(s: Session, w: SessionMetadata, loc: Location) -> bool {
    &&& s.title@ == spec_px_title(w)
    &&& s.user@ == w.user.title@
    &&& s.stream_decision == spec_px_decision(w)
    &&& s.media_type@ == w.type_field@
    &&& s.state@ == w.player.state_field@
    &&& s.progress == spec_progress_percent(w.view_offset as int, spec_px_duration(w))
    &&& s.quality@ == spec_px_quality(w)
    &&& crate::providers::jellyfin::opt_str_matches(s.season_number, opt_index_string(w.parent_index))
    &&& crate::providers::jellyfin::opt_str_matches(s.episode_number, opt_index_string(w.index))
    &&& s.address@ == w.player.address@
    &&& s.location == loc
    &&& s.local == w.player.local
    &&& s.secure == w.player.secure
    &&& s.relayed == (w.player.relayed && !w.player.local)
    &&& s.platform@ == w.player.platform@
    &&& s.bandwidth.bandwidth == w.session.bandwidth
    &&& s.bandwidth.location == BandwidthLocation::spec_parse(w.session.location@)
}

/// Normalises one Plex session.
pub fn session_from_plex(w: &SessionMetadata, location: Location) -> (s: Session)
    ensures
        session_matches_plex(s, *w, location),
        s.wf(),
{
    let mut quality = String::from_str("Unknown");
    let mut decision = StreamDecision::NoDecision;
    if w.media.len() > 0 {
        let media = &w.media[0];
        if media.part.len() > 0 {
            let part = &media.part[0];
            quality = match px_video_stream(&part.stream) {
                Some(s) => s.display_title.clone(),
                None => String::from_str("Unknown"),
            };
            decision = if str_eq(part.decision.as_str(), "directplay") {
                StreamDecision::DirectPlay
            } else if str_eq(part.decision.as_str(), "transcode") {
                let video_decision = match px_video_stream(&part.stream) {
                    Some(s) => match &s.decision {
                        Some(d) => d.clone(),
                        None => String::from_str("transcode"),
                    },
                    None => String::from_str("transcode"),
                };
                if str_eq(video_decision.as_str(), "copy") {
                    StreamDecision::DirectStream
                } else {
                    StreamDecision::Transcode
                }
            } else {
                StreamDecision::Transcode
            };
        }
    }
    let duration: i64 = if w.media.len() > 0 {
        w.media[0].duration
    } else {
        0
    };
    let title = match &w.grand_parent_title {
        Some(t) => t.clone(),
        None => w.title.clone(),
    };
    let season_number = match w.parent_index {
        Some(v) => Some(i128_to_string(v as i128)),
        None => None,
    };
    let episode_number = match w.index {
        Some(v) => Some(i128_to_string(v as i128)),
        None => None,
    };
    Session {
        title,
        user: w.user.title.clone(),
        stream_decision: decision,
        media_type: w.type_field.clone(),
        state: w.player.state_field.clone(),
        progress: progress_percent(w.view_offset, duration),
        quality,
        season_number,
        episode_number,
        address: w.player.address.clone(),
        location,
        local: w.player.local,
        secure: w.player.secure,
        relayed: w.player.relayed && !w.player.local,
        platform: w.player.platform.clone(),
        bandwidth: Bandwidth {
            bandwidth: w.session.bandwidth,
            location: BandwidthLocation::parse(w.session.location.as_str()),
        },
    }
}

/// Normalises Plex sessions, each with the location its public
/// address resolved to.
pub fn sessions_from_plex(wire: Vec<(SessionMetadata, Location)>) -> (r: Vec<Session>)
    ensures
        r@.len() == wire@.len(),
        forall|i: int|
            0 <= i < r@.len() ==> #[trigger] session_matches_plex(r@[i], wire@[i].0, wire@[i].1),
        forall|i: int| 0 <= i < r@.len() ==> (#[trigger] r@[i]).wf(),
{
    let mut r: Vec<Session> = Vec::new();
    let mut rest = wire;
    let ghost all = rest@;
    let total: usize = rest.len();
    proof {
        assert(all.skip(0) =~= all);
        assert(all.len() == total as int);
    }
    let mut i: usize = 0;
    while rest.len() > 0
        invariant
            all.len() <= usize::MAX,
            i + rest@.len() == all.len(),
            r@.len() == i,
            rest@ == all.skip(i as int),
            forall|j: int|
                0 <= j < i ==> #[trigger] session_matches_plex(r@[j], all[j].0, all[j].1),
            forall|j: int| 0 <= j < i ==> (#[trigger] r@[j]).wf(),
        decreases rest@.len(),
    {
        let (w, loc) = rest.remove(0);
        r.push(session_from_plex(&w, loc));
        proof {
            assert(all.skip(i as int)[0] == all[i as int]);
            assert(all.skip(i as int).remove(0) =~= all.skip(i + 1));
        }
        i += 1;
    }
    r
}

/// Addition on `i64` that clamps at the ends instead of wrapping.
pub open spec fn sat_add_i64(a: int, b: int) -> int {
    if a + b > i64::MAX {
        i64::MAX as int
    } else if a + b < i64::MIN {
        i64::MIN as int
    } else {
        a + b
    }
}

/// The season count of a show library: the sum of its entries'
/// child counts, clamping instead of overflowing.
pub open spec fn spec_child_sum(items: Seq<LibraryMetadata>) -> int
    decreases items.len(),
{
    if items.len() == 0 {
        0
    } else {
        sat_add_i64(
            spec_child_sum(items.drop_last()),
            match items.last().child_count {
                Some(c) => c as int,
                None => 0,
            },
        )
    }
}

/// The episode count of a show library: the sum of its entries' leaf
/// counts, clamping instead of overflowing.
pub open spec fn spec_leaf_sum(items: Seq<LibraryMetadata>) -> int
    decreases items.len(),
{
    if items.len() == 0 {
        0
    } else {
        sat_add_i64(
            spec_leaf_sum(items.drop_last()),
            match items.last().leaf_count {
                Some(c) => c as int,
                None => 0,
            },
        )
    }
}

/// Saturating add on `i64`, spelt with `checked_add`.
fn sat_add(a: i64, b: i64) -> (r: i64)
    ensures
        r as int == sat_add_i64(a as int, b as int),
{
    match a.checked_add(b) {
        Some(v) => v,
        None => if b > 0 {
            i64::MAX
        } else {
            i64::MIN
        },
    }
}

proof fn lemma_sums_fit(items: Seq<LibraryMetadata>)
    ensures
        i64::MIN <= spec_child_sum(items) <= i64::MAX,
        i64::MIN <= spec_leaf_sum(items) <= i64::MAX,
    decreases items.len(),
{
    if items.len() > 0 {
        lemma_sums_fit(items.drop_last());
    }
}

fn show_sums(items: &Vec<LibraryMetadata>) -> (r: (i64, i64))
    ensures
        r.0 == spec_child_sum(items@),
        r.1 == spec_leaf_sum(items@),
{
    let mut child: i64 = 0;
    let mut leaf: i64 = 0;
    let mut i: usize = 0;
    while i < items.len()
        invariant
            i <= items@.len(),
            child == spec_child_sum(items@.take(i as int)),
            leaf == spec_leaf_sum(items@.take(i as int)),
        decreases items@.len() - i,
    {
        proof {
            assert(items@.take(i + 1).drop_last() =~= items@.take(i as int));
            assert(items@.take(i + 1).last() == items@[i as int]);
            lemma_sums_fit(items@.take(i as int));
        }
        let it = &items[i];
        child = sat_add(
            child,
            match it.child_count {
                Some(c) => c,
                None => 0,
            },
        );
        leaf = sat_add(
            leaf,
            match it.leaf_count {
                Some(c) => c,
                None => 0,
            },
        );
        i += 1;
    }
    proof {
        assert(items@.take(items@.len() as int) =~= items@);
    }
    (child, leaf)
}

/// How one library entry relates to its section directory and the
/// items the section holds: show libraries aggregate season and
/// episode counts, others carry the item count alone.
pub open spec fn library_infos_matches(
    l: LibraryInfos,
    d: Directory,
    c: LibraryItemsContainer,
) -> bool {
    &&& l.library_name@ == d.title@
    &&& l.library_type@ == d.type_field@
    &&& l.library_size == c.size
    &&& if d.type_field@ == "show"@ {
        l.library_child_size == Some(spec_child_sum(c.metadata@) as i64)
            && l.library_grand_child_size == Some(spec_leaf_sum(c.metadata@) as i64)
    } else {
        l.library_child_size is None && l.library_grand_child_size is None
    }
}

/// Aggregates each section's items into one library entry.
pub fn library_infos_from_sections(sections: &Vec<(Directory, LibraryItemsContainer)>) -> (r: Vec<
    LibraryInfos,
>)
    ensures
        r@.len() == sections@.len(),
        forall|i: int|
            0 <= i < r@.len() ==> #[trigger] library_infos_matches(
                r@[i],
                sections@[i].0,
                sections@[i].1,
            ),
{
    let mut r: Vec<LibraryInfos> = Vec::new();
    let mut i: usize = 0;
    while i < sections.len()
        invariant
            i <= sections@.len(),
            r@.len() == i,
            forall|j: int|
                0 <= j < i ==> #[trigger] library_infos_matches(
                    r@[j],
                    sections@[j].0,
                    sections@[j].1,
                ),
        decreases sections@.len() - i,
    {
        let d = &sections[i].0;
        let c = &sections[i].1;
        if str_eq(d.type_field.as_str(), "show") {
            let (child_sum, leaf_sum) = show_sums(&c.metadata);
            r.push(
                LibraryInfos {
                    library_name: d.title.clone(),
                    library_type: d.type_field.clone(),
                    library_size: c.size,
                    library_child_size: Some(child_sum),
                    library_grand_child_size: Some(leaf_sum),
                },
            );
        } else {
            r.push(
                LibraryInfos {
                    library_name: d.title.clone(),
                    library_type: d.type_field.clone(),
                    library_size: c.size,
                    library_child_size: None,
                    library_grand_child_size: None,
                },
            );
        }
        i += 1;
    }
    r
}

pub open spec fn library_count_matches_px(c: LibraryCount, l: LibraryInfos) -> bool {
    &&& c.name@ == l.library_name@
    &&& c.media_type == MediaType::spec_parse(l.library_type@)
    &&& c.count == l.library_size
    &&& c.child_count == l.library_child_size
    &&& c.grand_child_count == l.library_grand_child_size
}

/// Maps aggregated library entries to canonical library counts.
pub fn library_counts_from_infos(wire: &Vec<LibraryInfos>) -> (r: Vec<LibraryCount>)
    ensures
        r@.len() == wire@.len(),
        forall|i: int|
            0 <= i < r@.len() ==> #[trigger] library_count_matches_px(r@[i], wire@[i]),
{
    let mut r: Vec<LibraryCount> = Vec::new();
    let mut i: usize = 0;
    while i < wire.len()
        invariant
            i <= wire@.len(),
            r@.len() == i,
            forall|j: int| 0 <= j < i ==> #[trigger] library_count_matches_px(r@[j], wire@[j]),
        decreases wire@.len() - i,
    {
        let w = &wire[i];
        r.push(
            LibraryCount {
                name: w.library_name.clone(),
                media_type: MediaType::parse(w.library_type.as_str()),
                count: w.library_size,
                child_count: w.library_child_size,
                grand_child_count: w.library_grand_child_size,
            },
        );
        i += 1;
    }
    r
}

/// How many episodes and movies the history lists.
pub struct PlexViews {
    pub episodes_viewed: i64,
    pub movies_viewed: i64,
}

/// How many history entries carry a type, clamped at `i64::MAX`.
pub open spec fn spec_count_type(s: Seq<HistoryMetadata>, t: Seq<char>) -> int
    decreases s.len(),
{
    if s.len() == 0 {
        0
    } else {
        sat_add_i64(
            spec_count_type(s.drop_last(), t),
            if s.last().type_field@ == t {
                1int
            } else {
                0int
            },
        )
    }
}

proof fn lemma_count_type_fits(s: Seq<HistoryMetadata>, t: Seq<char>)
    ensures
        0 <= spec_count_type(s, t) <= i64::MAX,
    decreases s.len(),
{
    if s.len() > 0 {
        lemma_count_type_fits(s.drop_last(), t);
    }
}

/// Counts watched episodes and movies in the history.
pub fn views_from_history(history: &Vec<HistoryMetadata>) -> (r: PlexViews)
    ensures
        r.episodes_viewed == spec_count_type(history@, "episode"@),
        r.movies_viewed == spec_count_type(history@, "movie"@),
{
    let mut episodes: i64 = 0;
    let mut movies: i64 = 0;
    let mut i: usize = 0;
    while i < history.len()
        invariant
            i <= history@.len(),
            episodes == spec_count_type(history@.take(i as int), "episode"@),
            movies == spec_count_type(history@.take(i as int), "movie"@),
        decreases history@.len() - i,
    {
        proof {
            assert(history@.take(i + 1).drop_last() =~= history@.take(i as int));
            assert(history@.take(i + 1).last() == history@[i as int]);
            lemma_count_type_fits(history@.take(i as int), "episode"@);
            lemma_count_type_fits(history@.take(i as int), "movie"@);
        }
        let h = &history[i];
        if str_eq(h.type_field.as_str(), "episode") {
            episodes = sat_add(episodes, 1);
        }
        if str_eq(h.type_field.as_str(), "movie") {
            movies = sat_add(movies, 1);
        }
        i += 1;
    }
    proof {
        assert(history@.take(history@.len() as int) =~= history@);
    }
    PlexViews { episodes_viewed: episodes, movies_viewed: movies }
}

/// The users the bandwidth-statistics endpoint reports. A default
/// (empty) container means no session and yields no users.
pub fn users_from_statistics(stats: Option<&StatisticsContainer>) -> (r: Vec<User>)
    ensures
        match stats {
            Some(c) => r@.len() == c.account@.len() && forall|i: int|
                0 <= i < r@.len() ==> (#[trigger] r@[i]).name@ == c.account@[i].name@,
            None => r@.len() == 0,
        },
{
    match stats {
        Some(c) => {
            let mut r: Vec<User> = Vec::new();
            let mut i: usize = 0;
            while i < c.account.len()
                invariant
                    i <= c.account@.len(),
                    r@.len() == i,
                    forall|j: int| 0 <= j < i ==> (#[trigger] r@[j]).name@ == c.account@[j].name@,
                decreases c.account@.len() - i,
            {
                r.push(User { name: c.account[i].name.clone() });
                i += 1;
            }
            r
        },
        None => Vec::new(),
    }
}

} // verus!
