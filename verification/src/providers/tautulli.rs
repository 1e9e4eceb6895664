//! The Tautulli adapter: session summaries, library statistics and
//! watch history.

use vstd::prelude::*;
use vstd::string::*;

use crate::config::{remove_trailing_slash, strip_trailing};
use crate::providers::structs::tautulli::{HistoryEntry, Session};

verus! {

/// One configured Tautulli instance. `api_url` is the command prefix
/// every call starts from.
pub struct Tautulli {
    pub address: String,
    pub api_key: String,
    pub api_url: String,
}

/// The command prefix: `{address}/api/v2?apikey={key}&cmd=`.
pub open spec fn spec_api_url(address: Seq<char>, api_key: Seq<char>) -> Seq<char> {
    address + "/api/v2?apikey="@ + api_key + "&cmd="@
}

impl Tautulli {
    pub fn new(address: &str, api_key: &str) -> (r: Tautulli)
        ensures
            r.address@ == strip_trailing(address@),
            r.api_key@ == api_key@,
            r.api_url@ == spec_api_url(strip_trailing(address@), api_key@),
    {
        let addr = String::from_str(remove_trailing_slash(address));
        let mut api_url = addr.clone();
        api_url.append("/api/v2?apikey=");
        api_url.append(api_key);
        api_url.append("&cmd=");
        Tautulli { address: addr, api_key: String::from_str(api_key), api_url }
    }

    /// The URL of one API command.
    pub fn command_url(&self, command: &str) -> (r: String)
        ensures
            r@ == self.api_url@ + command@,
    {
        let mut url = self.api_url.clone();
        url.append(command);
        url
    }

    /// The activity endpoint, which lists the current sessions.
    pub fn activity_url(&self) -> (r: String)
        ensures
            r@ == self.api_url@ + "get_activity"@,
    {
        self.command_url("get_activity")
    }

    /// The libraries endpoint.
    pub fn libraries_url(&self) -> (r: String)
        ensures
            r@ == self.api_url@ + "get_libraries"@,
    {
        self.command_url("get_libraries")
    }

    /// The watch-history endpoint.
    pub fn history_url(&self) -> (r: String)
        ensures
            r@ == self.api_url@ + "get_history"@,
    {
        self.command_url("get_history")
    }
}

/// Where a session's client connects from.
pub struct TautulliLocation {
    pub city: String,
    pub country: String,
    pub ip_address: String,
    pub latitude: String,
    pub longitude: String,
}

/// One session as the exporter reports it. Tautulli delivers progress
/// as a string percentage; it is carried through unchanged.
pub struct SessionSummary {
    pub user: String,
    pub title: String,
    pub state: String,
    pub progress: String,
    pub quality: String,
    pub quality_profile: String,
    pub video_stream: String,
    pub media_type: String,
    pub season_number: Option<String>,
    pub episode_number: Option<String>,
    pub location: TautulliLocation,
}

/// How one summary relates to its wire session: episodes take the
/// series title and season/episode indexes, everything else takes the
/// item title and no indexes.
pub open spec fn summary_matches(s: SessionSummary, w: Session, loc: TautulliLocation) -> bool {
    &&& s.user@ == w.user@
    &&& s.state@ == w.state@
    &&& s.progress@ == w.progress_percent@
    &&& s.quality@ == w.video_full_resolution@
    &&& s.quality_profile@ == w.quality_profile@
    &&& s.video_stream@ == w.video_decision@
    &&& s.media_type@ == w.media_type@
    &&& s.location == loc
    &&& if w.media_type@ == "episode"@ {
        &&& s.title@ == w.grandparent_title@
        &&& s.season_number matches Some(n) && n@ == w.parent_media_index@
        &&& s.episode_number matches Some(n) && n@ == w.media_index@
    } else {
        &&& s.title@ == w.title@
        &&& s.season_number is None
        &&& s.episode_number is None
    }
}

fn summary_from_session(w: &Session, loc: TautulliLocation) -> (s: SessionSummary)
    ensures
        summary_matches(s, *w, loc),
{
    if crate::text::str_eq(w.media_type.as_str(), "episode") {
        SessionSummary {
            user: w.user.clone(),
            title: w.grandparent_title.clone(),
            state: w.state.clone(),
            progress: w.progress_percent.clone(),
            quality: w.video_full_resolution.clone(),
            quality_profile: w.quality_profile.clone(),
            video_stream: w.video_decision.clone(),
            media_type: w.media_type.clone(),
            season_number: Some(w.parent_media_index.clone()),
            episode_number: Some(w.media_index.clone()),
            location: loc,
        }
    } else {
        SessionSummary {
            user: w.user.clone(),
            title: w.title.clone(),
            state: w.state.clone(),
            progress: w.progress_percent.clone(),
            quality: w.video_full_resolution.clone(),
            quality_profile: w.quality_profile.clone(),
            video_stream: w.video_decision.clone(),
            media_type: w.media_type.clone(),
            season_number: None,
            episode_number: None,
            location: loc,
        }
    }
}

/// Maps the activity endpoint's sessions, each with the location its
/// IP resolved to, to session summaries, one for one.
pub fn session_summaries(sessions: Vec<(Session, TautulliLocation)>) -> (r: Vec<SessionSummary>)
    ensures
        r@.len() == sessions@.len(),
        forall|i: int|
            0 <= i < r@.len() ==> #[trigger] summary_matches(
                r@[i],
                sessions@[i].0,
                sessions@[i].1,
            ),
{
    let mut r: Vec<SessionSummary> = Vec::new();
    let mut rest = sessions;
    let ghost all = rest@;
    let total: usize = rest.len();
    proof {
        assert(all.skip(0) =~= all);
        assert(all.len() == total as int);
    }
    let mut i: usize = 0;
    while rest.len() > 0
        invariant
            all.len() <= usize::MAX,
            i + rest@.len() == all.len(),
            r@.len() == i,
            rest@ == all.skip(i as int),
            forall|j: int|
                0 <= j < i ==> #[trigger] summary_matches(r@[j], all[j].0, all[j].1),
        decreases rest@.len(),
    {
        let (w, loc) = rest.remove(0);
        r.push(summary_from_session(&w, loc));
        proof {
            assert(all.skip(i as int)[0] == all[i as int]);
            assert(all.skip(i as int).remove(0) =~= all.skip(i + 1));
        }
        i += 1;
    }
    r
}

/// The watched-history window: one day in seconds.
pub open spec fn in_window(e: HistoryEntry, now: int) -> bool {
    e.date >= now - 86400
}

/// How many entries fall in the last day.
pub open spec fn spec_plays_in_window(entries: Seq<HistoryEntry>, now: int) -> int
    decreases entries.len(),
{
    if entries.len() == 0 {
        0
    } else {
        spec_plays_in_window(entries.drop_last(), now) + if in_window(entries.last(), now) {
            1int
        } else {
            0int
        }
    }
}

proof fn lemma_plays_bound(entries: Seq<HistoryEntry>, now: int)
    ensures
        0 <= spec_plays_in_window(entries, now) <= entries.len(),
    decreases entries.len(),
{
    if entries.len() > 0 {
        lemma_plays_bound(entries.drop_last(), now);
    }
}

/// Counts the history entries of the last day.
pub fn plays_in_window(entries: &Vec<HistoryEntry>, now: i64) -> (r: usize)
    ensures
        r == spec_plays_in_window(entries@, now as int),
{
    let mut count: usize = 0;
    let mut i: usize = 0;
    while i < entries.len()
        invariant
            i <= entries@.len(),
            count == spec_plays_in_window(entries@.take(i as int), now as int),
        decreases entries@.len() - i,
    {
        proof {
            assert(entries@.take(i + 1).drop_last() =~= entries@.take(i as int));
            assert(entries@.take(i + 1).last() == entries@[i as int]);
            lemma_plays_bound(entries@.take(i as int), now as int);
        }
        if (entries[i].date as i128) >= (now as i128) - 86400 {
            count += 1;
        }
        i += 1;
    }
    proof {
        assert(entries@.take(entries@.len() as int) =~= entries@);
    }
    count
}

/// The name one history entry is counted under: the friendly name
/// when it is non-empty, else the account name.
pub open spec fn spec_effective_user(e: HistoryEntry) -> Seq<char> {
    if e.friendly_name@.len() > 0 {
        e.friendly_name@
    } else {
        e.user@
    }
}

/// Watch counts per user, as the exporter reports them.
pub struct UserWatch {
    pub user: String,
    pub count: usize,
}

/// The ghost image of a watch tally.
pub open spec fn watch_model(w: UserWatch) -> (Seq<char>, int) {
    (w.user@, w.count as int)
}

/// The first tally slot for a name, or -1.
pub open spec fn spec_find_watch(acc: Seq<(Seq<char>, int)>, name: Seq<char>) -> int
    decreases acc.len(),
{
    if acc.len() == 0 {
        -1
    } else if acc[0].0 == name {
        0
    } else {
        let r = spec_find_watch(acc.drop_first(), name);
        if r < 0 {
            -1
        } else {
            r + 1
        }
    }
}

/// One more watch for a name: the existing tally grows by one, or a
/// new tally of one is appended.
pub open spec fn spec_add_watch(acc: Seq<(Seq<char>, int)>, name: Seq<char>) -> Seq<
    (Seq<char>, int),
> {
    let at = spec_find_watch(acc, name);
    if at >= 0 {
        acc.update(at, (acc[at].0, acc[at].1 + 1))
    } else {
        acc.push((name, 1))
    }
}

/// The per-user tallies of the last day's history, grouped in order of
/// first appearance.
pub open spec fn spec_user_watches(entries: Seq<HistoryEntry>, now: int) -> Seq<(Seq<char>, int)>
    decreases entries.len(),
{
    if entries.len() == 0 {
        Seq::empty()
    } else {
        let rest = spec_user_watches(entries.drop_last(), now);
        if in_window(entries.last(), now) {
            spec_add_watch(rest, spec_effective_user(entries.last()))
        } else {
            rest
        }
    }
}

pub open spec fn watches_model(ws: Seq<UserWatch>) -> Seq<(Seq<char>, int)> {
    ws.map_values(|w: UserWatch| watch_model(w))
}

fn find_watch(acc: &Vec<UserWatch>, name: &str) -> (r: Option<usize>)
    ensures
        match r {
            Some(i) => i < acc@.len() && spec_find_watch(watches_model(acc@), name@) == i,
            None => spec_find_watch(watches_model(acc@), name@) == -1,
        },
{
    let mut i: usize = 0;
    proof {
        assert(watches_model(acc@).skip(0) =~= watches_model(acc@));
    }
    while i < acc.len()
        invariant
            i <= acc@.len(),
            forall|j: int| 0 <= j < i ==> (#[trigger] acc@[j]).user@ != name@,
            spec_find_watch(watches_model(acc@), name@) == spec_find_watch(
                watches_model(acc@).skip(i as int),
                name@,
            ) + if spec_find_watch(watches_model(acc@).skip(i as int), name@) >= 0 {
                i as int
            } else {
                0int
            },
        decreases acc@.len() - i,
    {
        proof {
            assert(watches_model(acc@).skip(i as int)[0] == watch_model(acc@[i as int]));
        }
        if crate::text::str_eq(acc[i].user.as_str(), name) {
            return Some(i);
        }
        proof {
            assert(watches_model(acc@).skip(i as int).drop_first() =~= watches_model(acc@).skip(
                i + 1,
            ));
        }
        i += 1;
    }
    proof {
        assert(watches_model(acc@).skip(acc@.len() as int) =~= Seq::<(Seq<char>, int)>::empty());
    }
    None
}

/// Tallies the last day's history per user, in order of first
/// appearance.
pub fn user_watches(entries: &Vec<HistoryEntry>, now: i64) -> (r: Vec<UserWatch>)
    ensures
        watches_model(r@) == spec_user_watches(entries@, now as int),
{
    let mut r: Vec<UserWatch> = Vec::new();
    let mut i: usize = 0;
    while i < entries.len()
        invariant
            i <= entries@.len(),
            watches_model(r@) == spec_user_watches(entries@.take(i as int), now as int),
            forall|j: int| 0 <= j < r@.len() ==> (#[trigger] r@[j]).count <= i,
        decreases entries@.len() - i,
    {
        proof {
            assert(entries@.take(i + 1).drop_last() =~= entries@.take(i as int));
            assert(entries@.take(i + 1).last() == entries@[i as int]);
        }
        let e = &entries[i];
        if (e.date as i128) >= (now as i128) - 86400 {
            let name = if e.friendly_name.unicode_len() > 0 {
                e.friendly_name.clone()
            } else {
                e.user.clone()
            };
            proof {
                assert(name@ == spec_effective_user(entries@[i as int]));
            }
            match find_watch(&r, name.as_str()) {
                Some(at) => {
                    let c = r[at].count;
                    r[at].count = c + 1;
                    proof {
                        assert(watches_model(r@) =~= spec_add_watch(
                            spec_user_watches(entries@.take(i as int), now as int),
                            name@,
                        ));
                    }
                },
                None => {
                    r.push(UserWatch { user: name, count: 1 });
                    proof {
                        assert(watches_model(r@) =~= spec_add_watch(
                            spec_user_watches(entries@.take(i as int), now as int),
                            name@,
                        ));
                    }
                },
            }
        }
        i += 1;
    }
    proof {
        assert(entries@.take(entries@.len() as int) =~= entries@);
    }
    r
}

/// Summarises the fetched watch history for the encoder: the backend's
/// all-time total carried through, and the last day's plays and
/// per-user tallies, both taken against the clock at the moment of the
/// call. The first component is the Unix time the summary was taken
/// against, so the other components are pinned by it; the play count
/// saturates at `i64::MAX`.
pub fn history_summary(records_total: i64, entries: &Vec<HistoryEntry>) -> (r: (i64, i64, i64, Vec<
    UserWatch,
>))
    ensures
        r.1 == records_total,
        r.2 as int == (if spec_plays_in_window(entries@, r.0 as int) > i64::MAX {
            i64::MAX as int
        } else {
            spec_plays_in_window(entries@, r.0 as int)
        }),
        watches_model(r.3@) == spec_user_watches(entries@, r.0 as int),
{
    let now = crate::clock::unix_now();
    let plays = plays_in_window(entries, now);
    let plays = if plays as u128 > i64::MAX as u128 {
        i64::MAX
    } else {
        plays as i64
    };
    let watches = user_watches(entries, now);
    proof {
        lemma_plays_bound(entries@, now as int);
    }
    (now, records_total, plays, watches)
}

} // verus!
