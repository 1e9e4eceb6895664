//! The Sonarr adapter: calendar entries for today's and last week's
//! episodes.

use vstd::prelude::*;
use vstd::string::*;

use crate::config::{remove_trailing_slash, strip_trailing};
use crate::providers::structs::sonarr::Calendar;
use crate::text::{spec_dec, spec_int_string, i128_to_string, u64_to_string_pad2};

verus! {

/// One configured Sonarr instance.
pub struct Sonarr {
    pub name: String,
    pub address: String,
    pub api_key: String,
}

impl Sonarr {
    /// Normalises the address; endpoints carry the API root themselves.
    pub fn new(name: &str, address: &str, api_key: &str) -> (r: Sonarr)
        ensures
            r.name@ == name@,
            r.address@ == strip_trailing(address@),
            r.api_key@ == api_key@,
    {
        Sonarr {
            name: String::from_str(name),
            address: String::from_str(remove_trailing_slash(address)),
            api_key: String::from_str(api_key),
        }
    }

    /// The calendar endpoint.
    pub fn calendar_url(&self) -> (r: String)
        ensures
            r@ == self.address@ + "/api/v3/calendar"@,
    {
        let mut url = self.address.clone();
        url.append("/api/v3/calendar");
        url
    }
}

/// Installs an API key on an instance. Secrets are keyed on the
/// adapter instance, never held in process-wide state.
pub fn initialize_api_key(sonarr: &mut Sonarr, api_key: String)
    ensures
        final(sonarr).api_key == api_key,
        final(sonarr).name == old(sonarr).name,
        final(sonarr).address == old(sonarr).address,
{
    sonarr.api_key = api_key;
}

/// How far a calendar window reaches: days back from today to the
/// inclusive start, and days forward to the exclusive end.
pub struct WindowDays {
    pub back: u64,
    pub forward: u64,
}

/// Today's calendar window: inclusive start today, exclusive end
/// tomorrow, in the host's local timezone. The offsets returned
/// beside the dates are the ones asked of the clock; the dates are
/// `None` only when the calendar range runs out.
pub fn today_window() -> (r: (WindowDays, Option<(String, String)>))
    ensures
        r.0.back == 0,
        r.0.forward == 1,
{
    let days = WindowDays { back: 0, forward: 1 };
    let range = crate::clock::local_date_range(days.back, days.forward);
    (days, range)
}

/// Last week's calendar window: inclusive start seven days ago,
/// exclusive end today, in the host's local timezone.
pub fn missing_window() -> (r: (WindowDays, Option<(String, String)>))
    ensures
        r.0.back == 7,
        r.0.forward == 0,
{
    let days = WindowDays { back: 7, forward: 0 };
    let range = crate::clock::local_date_range(days.back, days.forward);
    (days, range)
}

/// The calendar query for one window: inclusive start, exclusive
/// end, with the owning series embedded in each entry.
pub fn calendar_query(start: &str, end: &str) -> (r: Vec<(String, String)>)
    ensures
        r@.len() == 3,
        r@[0].0@ == "start"@ && r@[0].1@ == start@,
        r@[1].0@ == "end"@ && r@[1].1@ == end@,
        r@[2].0@ == "includeSeries"@ && r@[2].1@ == "true"@,
{
    let mut r: Vec<(String, String)> = Vec::new();
    r.push((String::from_str("start"), String::from_str(start)));
    r.push((String::from_str("end"), String::from_str(end)));
    r.push((String::from_str("includeSeries"), String::from_str("true")));
    r
}

/// An episode as the exporter reports it. `sxe` renders the episode
/// number as `S01E01`.
pub struct SonarrEpisode {
    pub sxe: String,
    pub season_number: i64,
    pub episode_number: i64,
    pub title: String,
    pub serie: String,
    pub air_date: String,
    pub has_file: bool,
}

/// A number padded to at least two digits, as `S01E01` wants it.
pub open spec fn spec_pad2(n: int) -> Seq<char> {
    if 0 <= n < 10 {
        seq!['0'] + spec_dec(n)
    } else {
        spec_int_string(n)
    }
}

fn pad2(n: i64) -> (r: String)
    ensures
        r@ == spec_pad2(n as int),
{
    if n >= 0 {
        u64_to_string_pad2(n as u64)
    } else {
        i128_to_string(n as i128)
    }
}

/// The `S%02dE%02d` rendering of a season/episode pair.
pub open spec fn spec_sxe(season: int, episode: int) -> Seq<char> {
    "S"@ + spec_pad2(season) + "E"@ + spec_pad2(episode)
}

/// Renders a season/episode pair as `S01E01`.
pub fn sxe_string(season: i64, episode: i64) -> (r: String)
    ensures
        r@ == spec_sxe(season as int, episode as int),
{
    let mut s = String::from_str("S");
    let sn = pad2(season);
    s.append(sn.as_str());
    s.append("E");
    let en = pad2(episode);
    s.append(en.as_str());
    s
}

/// How one emitted episode relates to its calendar entry.
pub open spec fn episode_matches(e: SonarrEpisode, c: Calendar) -> bool {
    &&& e.sxe@ == spec_sxe(c.season_number as int, c.episode_number as int)
    &&& e.season_number == c.season_number
    &&& e.episode_number == c.episode_number
    &&& e.title@ == c.title@
    &&& e.serie@ == c.series_title@
    &&& e.air_date@ == c.air_date@
    &&& e.has_file == c.has_file
}

fn episode_from_calendar(c: &Calendar) -> (e: SonarrEpisode)
    ensures
        episode_matches(e, *c),
{
    SonarrEpisode {
        sxe: sxe_string(c.season_number, c.episode_number),
        season_number: c.season_number,
        episode_number: c.episode_number,
        title: c.title.clone(),
        serie: c.series_title.clone(),
        air_date: c.air_date.clone(),
        has_file: c.has_file,
    }
}

/// Maps today's calendar entries to episodes, one for one.
pub fn episodes_from_calendars(wire: &Vec<Calendar>) -> (r: Vec<SonarrEpisode>)
    ensures
        r@.len() == wire@.len(),
        forall|i: int| 0 <= i < r@.len() ==> #[trigger] episode_matches(r@[i], wire@[i]),
{
    let mut r: Vec<SonarrEpisode> = Vec::new();
    let mut i: usize = 0;
    while i < wire.len()
        invariant
            i <= wire@.len(),
            r@.len() == i,
            forall|j: int| 0 <= j < i ==> #[trigger] episode_matches(r@[j], wire@[j]),
        decreases wire@.len() - i,
    {
        r.push(episode_from_calendar(&wire[i]));
        i += 1;
    }
    r
}

/// The calendar entries that still lack a file, in order.
pub open spec fn spec_missing(wire: Seq<Calendar>) -> Seq<Calendar>
    decreases wire.len(),
{
    if wire.len() == 0 {
        Seq::empty()
    } else if !wire.last().has_file {
        spec_missing(wire.drop_last()).push(wire.last())
    } else {
        spec_missing(wire.drop_last())
    }
}

/// Maps last week's calendar entries to episodes, keeping only those
/// without a file.
pub fn missing_episodes_from_calendars(wire: &Vec<Calendar>) -> (r: Vec<SonarrEpisode>)
    ensures
        r@.len() == spec_missing(wire@).len(),
        forall|i: int|
            0 <= i < r@.len() ==> #[trigger] episode_matches(r@[i], spec_missing(wire@)[i]),
        forall|i: int| 0 <= i < r@.len() ==> !(#[trigger] r@[i]).has_file,
{
    let mut r: Vec<SonarrEpisode> = Vec::new();
    let mut i: usize = 0;
    while i < wire.len()
        invariant
            i <= wire@.len(),
            r@.len() == spec_missing(wire@.take(i as int)).len(),
            forall|j: int|
                0 <= j < r@.len() ==> #[trigger] episode_matches(
                    r@[j],
                    spec_missing(wire@.take(i as int))[j],
                ),
        decreases wire@.len() - i,
    {
        proof {
            assert(wire@.take(i + 1).drop_last() =~= wire@.take(i as int));
            assert(wire@.take(i + 1).last() == wire@[i as int]);
        }
        if !wire[i].has_file {
            r.push(episode_from_calendar(&wire[i]));
        }
        i += 1;
    }
    proof {
        assert(wire@.take(wire@.len() as int) =~= wire@);
        assert forall|i: int| 0 <= i < r@.len() implies !(#[trigger] r@[i]).has_file by {
            lemma_missing_no_file(wire@);
            assert(episode_matches(r@[i], spec_missing(wire@)[i]));
        }
    }
    r
}

/// Everything `spec_missing` keeps lacks a file.
proof fn lemma_missing_no_file(wire: Seq<Calendar>)
    ensures
        forall|i: int|
            0 <= i < spec_missing(wire).len() ==> !(#[trigger] spec_missing(wire)[i]).has_file,
    decreases wire.len(),
{
    if wire.len() > 0 {
        lemma_missing_no_file(wire.drop_last());
        let m = spec_missing(wire);
        let p = spec_missing(wire.drop_last());
        if !wire.last().has_file {
            assert forall|i: int| 0 <= i < m.len() implies !(#[trigger] m[i]).has_file by {
                if i < p.len() {
                    assert(m[i] == p[i]);
                } else {
                    assert(m[i] == wire.last());
                }
            }
        }
    }
}

} // verus!
