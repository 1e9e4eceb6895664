//! Configuration values and the task registry derived from them once
//! at startup.

use vstd::prelude::*;
use vstd::string::*;

use crate::http_server::HttpConfig;
use crate::providers::jellyfin::Jellyfin;
use crate::providers::lidarr::Lidarr;
use crate::providers::overseerr::Overseerr;
use crate::providers::plex::Plex;
use crate::providers::radarr::Radarr;
use crate::providers::readarr::Readarr;
use crate::providers::sonarr::Sonarr;
use crate::providers::tautulli::{spec_api_url, Tautulli};
use crate::tasks::Task;

verus! {

/// A backend address with one trailing `/` removed, if present.
pub open spec fn strip_trailing(s: Seq<char>) -> Seq<char> {
    if s.len() > 0 && s[s.len() - 1] == '/' {
        s.subrange(0, s.len() - 1)
    } else {
        s
    }
}

/// Removes exactly one trailing `/` from an address, as the
/// configuration normalisation demands.
pub fn remove_trailing_slash(s: &str) -> (r: &str)
    ensures
        r@ == strip_trailing(s@),
{
    let len = s.unicode_len();
    if len > 0 && s.get_char(len - 1) == '/' {
        s.substring_char(0, len - 1)
    } else {
        s
    }
}

/// Stripping a trailing slash is idempotent, except on addresses that
/// end in two or more slashes (which a well-formed base URL never does).
pub proof fn lemma_strip_trailing_idempotent(s: Seq<char>)
    requires
        s.len() >= 2 ==> !(s[s.len() - 1] == '/' && s[s.len() - 2] == '/'),
    ensures
        strip_trailing(strip_trailing(s)) == strip_trailing(s),
{
    if s.len() > 0 && s[s.len() - 1] == '/' {
        let t = s.subrange(0, s.len() - 1);
        if t.len() > 0 && t[t.len() - 1] == '/' {
            assert(s[s.len() - 2] == '/');
        }
    }
}

/// One named instance of an adapter family.
pub struct Instance {
    pub name: String,
    pub address: String,
    pub apikey: String,
}

/// The single-instance Tautulli section.
pub struct ServiceConfig {
    pub address: String,
    pub apikey: String,
}

/// The Overseerr and Jellyseerr sections; `requests` is how many
/// requests a scrape fetches, twenty when absent.
pub struct SeerrConfig {
    pub address: String,
    pub apikey: String,
    pub requests: Option<i64>,
}

/// The whole configuration. Each named map of the configuration file
/// arrives as a list of instances; map keys keep instance names unique
/// within their family.
pub struct Config {
    pub http: Option<HttpConfig>,
    pub tautulli: Option<ServiceConfig>,
    pub overseerr: Option<SeerrConfig>,
    pub jellyseerr: Option<SeerrConfig>,
    pub sonarr: Vec<Instance>,
    pub radarr: Vec<Instance>,
    pub lidarr: Vec<Instance>,
    pub readarr: Vec<Instance>,
    pub plex: Vec<Instance>,
    pub jellyfin: Vec<Instance>,
}

/// Instance names are unique within one family.
pub open spec fn distinct_names(insts: Seq<Instance>) -> bool {
    forall|i: int, j: int|
        0 <= i < j < insts.len() ==> (#[trigger] insts[i]).name@ != (#[trigger] insts[j]).name@
}

impl Config {
    /// Every family's instance names are unique, as the configuration
    /// file's named maps deliver them.
    pub open spec fn wf(self) -> bool {
        &&& distinct_names(self.sonarr@)
        &&& distinct_names(self.radarr@)
        &&& distinct_names(self.lidarr@)
        &&& distinct_names(self.readarr@)
        &&& distinct_names(self.plex@)
        &&& distinct_names(self.jellyfin@)
    }
}

impl Default for Config {
    /// An empty configuration that still serves HTTP on the default
    /// address.
    fn default() -> (r: Self)
        ensures
            r.http matches Some(h) && h.address@ == "localhost"@ && h.port == 8000,
            r.tautulli is None,
            r.overseerr is None,
            r.jellyseerr is None,
            r.sonarr@.len() == 0,
            r.radarr@.len() == 0,
            r.lidarr@.len() == 0,
            r.readarr@.len() == 0,
            r.plex@.len() == 0,
            r.jellyfin@.len() == 0,
    {
        Config {
            http: Some(HttpConfig::default()),
            tautulli: None,
            overseerr: None,
            jellyseerr: None,
            sonarr: Vec::new(),
            radarr: Vec::new(),
            lidarr: Vec::new(),
            readarr: Vec::new(),
            plex: Vec::new(),
            jellyfin: Vec::new(),
        }
    }
}

/// How each adapter handle relates to its configured instance.
pub open spec fn sonarr_from(s: Sonarr, i: Instance) -> bool {
    &&& s.name@ == i.name@
    &&& s.address@ == strip_trailing(i.address@)
    &&& s.api_key@ == i.apikey@
}

pub open spec fn radarr_from(s: Radarr, i: Instance) -> bool {
    &&& s.name@ == i.name@
    &&& s.address@ == strip_trailing(i.address@) + "/api/v3"@
    &&& s.api_key@ == i.apikey@
}

pub open spec fn lidarr_from(s: Lidarr, i: Instance) -> bool {
    &&& s.name@ == i.name@
    &&& s.address@ == strip_trailing(i.address@) + "/api/v1"@
    &&& s.api_key@ == i.apikey@
}

pub open spec fn readarr_from(s: Readarr, i: Instance) -> bool {
    &&& s.name@ == i.name@
    &&& s.address@ == strip_trailing(i.address@) + "/api/v1"@
    &&& s.api_key@ == i.apikey@
}

pub open spec fn plex_from(s: Plex, i: Instance) -> bool {
    &&& s.name@ == i.name@
    &&& s.address@ == strip_trailing(i.address@)
    &&& s.token@ == i.apikey@
}

pub open spec fn jellyfin_from(s: Jellyfin, i: Instance) -> bool {
    &&& s.name@ == i.name@
    &&& s.address@ == strip_trailing(i.address@)
    &&& s.api_key@ == i.apikey@
}

pub open spec fn tautulli_from(t: Tautulli, c: ServiceConfig) -> bool {
    &&& t.address@ == strip_trailing(c.address@)
    &&& t.api_key@ == c.apikey@
    &&& t.api_url@ == spec_api_url(strip_trailing(c.address@), c.apikey@)
}

pub open spec fn seerr_from(s: Overseerr, c: SeerrConfig) -> bool {
    &&& s.address@ == strip_trailing(c.address@)
    &&& s.api_key@ == c.apikey@
    &&& s.requests == Some(
        match c.requests {
            Some(n) => n,
            None => 20,
        },
    )
}

/// Each Sonarr instance contributes its today task then its missing
/// task.
pub open spec fn sonarr_seg_ok(ts: Seq<Task>, insts: Seq<Instance>) -> bool {
    &&& ts.len() == 2 * insts.len()
    &&& forall|i: int|
        0 <= i < insts.len() ==> ((#[trigger] ts[2 * i]) matches Task::SonarrToday(s)
            && sonarr_from(s, insts[i]))
    &&& forall|i: int|
        0 <= i < insts.len() ==> ((#[trigger] ts[2 * i + 1]) matches Task::SonarrMissing(s)
            && sonarr_from(s, insts[i]))
}

/// Tautulli contributes its session, library and history tasks.
pub open spec fn tautulli_seg_ok(ts: Seq<Task>, cfg: Option<ServiceConfig>) -> bool {
    match cfg {
        Some(c) => {
            &&& ts.len() == 3
            &&& ts[0] matches Task::TautulliSession(t) && tautulli_from(t, c)
            &&& ts[1] matches Task::TautulliLibrary(t) && tautulli_from(t, c)
            &&& ts[2] matches Task::TautulliHistory(t) && tautulli_from(t, c)
        },
        None => ts.len() == 0,
    }
}

pub open spec fn radarr_seg_ok(ts: Seq<Task>, insts: Seq<Instance>) -> bool {
    &&& ts.len() == insts.len()
    &&& forall|i: int|
        0 <= i < insts.len() ==> ((#[trigger] ts[i]) matches Task::Radarr(s) && radarr_from(
            s,
            insts[i],
        ))
}

pub open spec fn lidarr_seg_ok(ts: Seq<Task>, insts: Seq<Instance>) -> bool {
    &&& ts.len() == insts.len()
    &&& forall|i: int|
        0 <= i < insts.len() ==> ((#[trigger] ts[i]) matches Task::Lidarr(s) && lidarr_from(
            s,
            insts[i],
        ))
}

pub open spec fn readarr_seg_ok(ts: Seq<Task>, insts: Seq<Instance>) -> bool {
    &&& ts.len() == insts.len()
    &&& forall|i: int|
        0 <= i < insts.len() ==> ((#[trigger] ts[i]) matches Task::Readarr(s) && readarr_from(
            s,
            insts[i],
        ))
}

/// Overseerr and Jellyseerr each contribute one request task.
pub open spec fn seerr_seg_ok(ts: Seq<Task>, cfg: Option<SeerrConfig>, jellyseerr: bool) -> bool {
    match cfg {
        Some(c) => {
            &&& ts.len() == 1
            &&& if jellyseerr {
                ts[0] matches Task::Jellyseerr(s) && seerr_from(s, c)
            } else {
                ts[0] matches Task::Overseerr(s) && seerr_from(s, c)
            }
        },
        None => ts.len() == 0,
    }
}

/// Each Plex instance contributes its session task then its library
/// task.
pub open spec fn plex_seg_ok(ts: Seq<Task>, insts: Seq<Instance>) -> bool {
    &&& ts.len() == 2 * insts.len()
    &&& forall|i: int|
        0 <= i < insts.len() ==> ((#[trigger] ts[2 * i]) matches Task::PlexSession(s) && plex_from(
            s,
            insts[i],
        ))
    &&& forall|i: int|
        0 <= i < insts.len() ==> ((#[trigger] ts[2 * i + 1]) matches Task::PlexLibrary(s)
            && plex_from(s, insts[i]))
}

/// Each Jellyfin instance contributes its session task then its
/// library task.
pub open spec fn jellyfin_seg_ok(ts: Seq<Task>, insts: Seq<Instance>) -> bool {
    &&& ts.len() == 2 * insts.len()
    &&& forall|i: int|
        0 <= i < insts.len() ==> ((#[trigger] ts[2 * i]) matches Task::JellyfinSession(s)
            && jellyfin_from(s, insts[i]))
    &&& forall|i: int|
        0 <= i < insts.len() ==> ((#[trigger] ts[2 * i + 1]) matches Task::JellyfinLibrary(s)
            && jellyfin_from(s, insts[i]))
}

fn sonarr_tasks(insts: &Vec<Instance>) -> (r: Vec<Task>)
    ensures
        sonarr_seg_ok(r@, insts@),
{
    let mut r: Vec<Task> = Vec::new();
    let mut i: usize = 0;
    while i < insts.len()
        invariant
            i <= insts@.len(),
            r@.len() == 2 * i,
            forall|j: int|
                0 <= j < i ==> ((#[trigger] r@[2 * j]) matches Task::SonarrToday(s) && sonarr_from(
                    s,
                    insts@[j],
                )),
            forall|j: int|
                0 <= j < i ==> ((#[trigger] r@[2 * j + 1]) matches Task::SonarrMissing(s)
                    && sonarr_from(s, insts@[j])),
        decreases insts@.len() - i,
    {
        let inst = &insts[i];
        r.push(
            Task::SonarrToday(Sonarr::new(inst.name.as_str(), inst.address.as_str(), inst.apikey.as_str())),
        );
        r.push(
            Task::SonarrMissing(
                Sonarr::new(inst.name.as_str(), inst.address.as_str(), inst.apikey.as_str()),
            ),
        );
        i += 1;
    }
    r
}

fn radarr_tasks(insts: &Vec<Instance>) -> (r: Vec<Task>)
    ensures
        radarr_seg_ok(r@, insts@),
{
    let mut r: Vec<Task> = Vec::new();
    let mut i: usize = 0;
    while i < insts.len()
        invariant
            i <= insts@.len(),
            r@.len() == i,
            forall|j: int|
                0 <= j < i ==> ((#[trigger] r@[j]) matches Task::Radarr(s) && radarr_from(
                    s,
                    insts@[j],
                )),
        decreases insts@.len() - i,
    {
        let inst = &insts[i];
        r.push(
            Task::Radarr(Radarr::new(inst.name.as_str(), inst.address.as_str(), inst.apikey.as_str())),
        );
        i += 1;
    }
    r
}

fn lidarr_tasks(insts: &Vec<Instance>) -> (r: Vec<Task>)
    ensures
        lidarr_seg_ok(r@, insts@),
{
    let mut r: Vec<Task> = Vec::new();
    let mut i: usize = 0;
    while i < insts.len()
        invariant
            i <= insts@.len(),
            r@.len() == i,
            forall|j: int|
                0 <= j < i ==> ((#[trigger] r@[j]) matches Task::Lidarr(s) && lidarr_from(
                    s,
                    insts@[j],
                )),
        decreases insts@.len() - i,
    {
        let inst = &insts[i];
        r.push(
            Task::Lidarr(Lidarr::new(inst.name.as_str(), inst.address.as_str(), inst.apikey.as_str())),
        );
        i += 1;
    }
    r
}

fn readarr_tasks(insts: &Vec<Instance>) -> (r: Vec<Task>)
    ensures
        readarr_seg_ok(r@, insts@),
{
    let mut r: Vec<Task> = Vec::new();
    let mut i: usize = 0;
    while i < insts.len()
        invariant
            i <= insts@.len(),
            r@.len() == i,
            forall|j: int|
                0 <= j < i ==> ((#[trigger] r@[j]) matches Task::Readarr(s) && readarr_from(
                    s,
                    insts@[j],
                )),
        decreases insts@.len() - i,
    {
        let inst = &insts[i];
        r.push(
            Task::Readarr(Readarr::new(inst.name.as_str(), inst.address.as_str(), inst.apikey.as_str())),
        );
        i += 1;
    }
    r
}

fn plex_tasks(insts: &Vec<Instance>) -> (r: Vec<Task>)
    ensures
        plex_seg_ok(r@, insts@),
{
    let mut r: Vec<Task> = Vec::new();
    let mut i: usize = 0;
    while i < insts.len()
        invariant
            i <= insts@.len(),
            r@.len() == 2 * i,
            forall|j: int|
                0 <= j < i ==> ((#[trigger] r@[2 * j]) matches Task::PlexSession(s) && plex_from(
                    s,
                    insts@[j],
                )),
            forall|j: int|
                0 <= j < i ==> ((#[trigger] r@[2 * j + 1]) matches Task::PlexLibrary(s)
                    && plex_from(s, insts@[j])),
        decreases insts@.len() - i,
    {
        let inst = &insts[i];
        r.push(
            Task::PlexSession(Plex::new(inst.name.as_str(), inst.address.as_str(), inst.apikey.as_str())),
        );
        r.push(
            Task::PlexLibrary(Plex::new(inst.name.as_str(), inst.address.as_str(), inst.apikey.as_str())),
        );
        i += 1;
    }
    r
}

fn jellyfin_tasks(insts: &Vec<Instance>) -> (r: Vec<Task>)
    ensures
        jellyfin_seg_ok(r@, insts@),
{
    let mut r: Vec<Task> = Vec::new();
    let mut i: usize = 0;
    while i < insts.len()
        invariant
            i <= insts@.len(),
            r@.len() == 2 * i,
            forall|j: int|
                0 <= j < i ==> ((#[trigger] r@[2 * j]) matches Task::JellyfinSession(s)
                    && jellyfin_from(s, insts@[j])),
            forall|j: int|
                0 <= j < i ==> ((#[trigger] r@[2 * j + 1]) matches Task::JellyfinLibrary(s)
                    && jellyfin_from(s, insts@[j])),
        decreases insts@.len() - i,
    {
        let inst = &insts[i];
        r.push(
            Task::JellyfinSession(
                Jellyfin::new(inst.name.as_str(), inst.address.as_str(), inst.apikey.as_str()),
            ),
        );
        r.push(
            Task::JellyfinLibrary(
                Jellyfin::new(inst.name.as_str(), inst.address.as_str(), inst.apikey.as_str()),
            ),
        );
        i += 1;
    }
    r
}

/// The number of tasks each configuration yields.
pub open spec fn spec_task_count(c: Config) -> int {
    2 * c.sonarr@.len() + (if c.tautulli is Some {
        3int
    } else {
        0int
    }) + c.radarr@.len() + c.lidarr@.len() + c.readarr@.len() + (if c.overseerr is Some {
        1int
    } else {
        0int
    }) + (if c.jellyseerr is Some {
        1int
    } else {
        0int
    }) + 2 * c.plex@.len() + 2 * c.jellyfin@.len()
}

/// The task registry, derived once from the configuration: for each
/// Sonarr instance a today and a missing task; for Tautulli its
/// session, library and history tasks; one task per Radarr, Lidarr
/// and Readarr instance; one request task each for Overseerr and
/// Jellyseerr; and session and library tasks per Plex and Jellyfin
/// instance — in that order, with every address normalised.
pub fn get_tasks(config: &Config) -> (r: Vec<Task>)
    ensures
        r@.len() == spec_task_count(*config),
        sonarr_seg_ok(r@.subrange(0, 2 * config.sonarr@.len() as int), config.sonarr@),
        tautulli_seg_ok(
            r@.subrange(
                2 * config.sonarr@.len() as int,
                2 * config.sonarr@.len() as int + (if config.tautulli is Some {
                    3int
                } else {
                    0int
                }),
            ),
            config.tautulli,
        ),
        radarr_seg_ok(r@.subrange(off_radarr(*config), off_radarr(*config) + config.radarr@.len()), config.radarr@),
        lidarr_seg_ok(r@.subrange(off_lidarr(*config), off_lidarr(*config) + config.lidarr@.len()), config.lidarr@),
        readarr_seg_ok(
            r@.subrange(off_readarr(*config), off_readarr(*config) + config.readarr@.len()),
            config.readarr@,
        ),
        seerr_seg_ok(
            r@.subrange(
                off_overseerr(*config),
                off_overseerr(*config) + (if config.overseerr is Some {
                    1int
                } else {
                    0int
                }),
            ),
            config.overseerr,
            false,
        ),
        seerr_seg_ok(
            r@.subrange(
                off_jellyseerr(*config),
                off_jellyseerr(*config) + (if config.jellyseerr is Some {
                    1int
                } else {
                    0int
                }),
            ),
            config.jellyseerr,
            true,
        ),
        plex_seg_ok(
            r@.subrange(off_plex(*config), off_plex(*config) + 2 * config.plex@.len()),
            config.plex@,
        ),
        jellyfin_seg_ok(
            r@.subrange(off_jellyfin(*config), off_jellyfin(*config) + 2 * config.jellyfin@.len()),
            config.jellyfin@,
        ),
{
    let mut r: Vec<Task> = Vec::new();
    let mut sonarr = sonarr_tasks(&config.sonarr);
    let ghost seg_sonarr = sonarr@;
    r.append(&mut sonarr);
    let mut tautulli: Vec<Task> = Vec::new();
    match &config.tautulli {
        Some(c) => {
            let t = Tautulli::new(c.address.as_str(), c.apikey.as_str());
            tautulli.push(Task::TautulliSession(t));
            let t = Tautulli::new(c.address.as_str(), c.apikey.as_str());
            tautulli.push(Task::TautulliLibrary(t));
            let t = Tautulli::new(c.address.as_str(), c.apikey.as_str());
            tautulli.push(Task::TautulliHistory(t));
        },
        None => {},
    }
    let ghost seg_tautulli = tautulli@;
    proof {
        assert(tautulli_seg_ok(seg_tautulli, config.tautulli));
    }
    r.append(&mut tautulli);
    let mut radarr = radarr_tasks(&config.radarr);
    let ghost seg_radarr = radarr@;
    r.append(&mut radarr);
    let mut lidarr = lidarr_tasks(&config.lidarr);
    let ghost seg_lidarr = lidarr@;
    r.append(&mut lidarr);
    let mut readarr = readarr_tasks(&config.readarr);
    let ghost seg_readarr = readarr@;
    r.append(&mut readarr);
    let mut overseerr: Vec<Task> = Vec::new();
    match &config.overseerr {
        Some(c) => {
            let requests = match c.requests {
                Some(n) => n,
                None => 20,
            };
            overseerr.push(
                Task::Overseerr(Overseerr::new(c.address.as_str(), c.apikey.as_str(), requests)),
            );
        },
        None => {},
    }
    let ghost seg_overseerr = overseerr@;
    proof {
        assert(seerr_seg_ok(seg_overseerr, config.overseerr, false));
    }
    r.append(&mut overseerr);
    let mut jellyseerr: Vec<Task> = Vec::new();
    match &config.jellyseerr {
        Some(c) => {
            let requests = match c.requests {
                Some(n) => n,
                None => 20,
            };
            jellyseerr.push(
                Task::Jellyseerr(Overseerr::new(c.address.as_str(), c.apikey.as_str(), requests)),
            );
        },
        None => {},
    }
    let ghost seg_jellyseerr = jellyseerr@;
    proof {
        assert(seerr_seg_ok(seg_jellyseerr, config.jellyseerr, true));
    }
    r.append(&mut jellyseerr);
    let mut plex = plex_tasks(&config.plex);
    let ghost seg_plex = plex@;
    r.append(&mut plex);
    let mut jellyfin = jellyfin_tasks(&config.jellyfin);
    let ghost seg_jellyfin = jellyfin@;
    r.append(&mut jellyfin);
    proof {
        let all = r@;
        assert(all =~= seg_sonarr + seg_tautulli + seg_radarr + seg_lidarr + seg_readarr
            + seg_overseerr + seg_jellyseerr + seg_plex + seg_jellyfin);
        assert(all.subrange(0, 2 * config.sonarr@.len() as int) =~= seg_sonarr);
        assert(all.subrange(
            2 * config.sonarr@.len() as int,
            2 * config.sonarr@.len() + seg_tautulli.len() as int,
        ) =~= seg_tautulli);
        assert(all.subrange(off_radarr(*config), off_radarr(*config) + config.radarr@.len())
            =~= seg_radarr);
        assert(all.subrange(off_lidarr(*config), off_lidarr(*config) + config.lidarr@.len())
            =~= seg_lidarr);
        assert(all.subrange(off_readarr(*config), off_readarr(*config) + config.readarr@.len())
            =~= seg_readarr);
        assert(all.subrange(off_overseerr(*config), off_overseerr(*config) + seg_overseerr.len())
            =~= seg_overseerr);
        assert(all.subrange(
            off_jellyseerr(*config),
            off_jellyseerr(*config) + seg_jellyseerr.len(),
        ) =~= seg_jellyseerr);
        assert(all.subrange(off_plex(*config), off_plex(*config) + 2 * config.plex@.len())
            =~= seg_plex);
        assert(all.subrange(off_jellyfin(*config), off_jellyfin(*config) + 2 * config.jellyfin@.len())
            =~= seg_jellyfin);
    }
    r
}

/// Where each family's tasks start in the registry.
pub open spec fn off_radarr(c: Config) -> int {
    2 * c.sonarr@.len() + (if c.tautulli is Some {
        3int
    } else {
        0int
    })
}

pub open spec fn off_lidarr(c: Config) -> int {
    off_radarr(c) + c.radarr@.len()
}

pub open spec fn off_readarr(c: Config) -> int {
    off_lidarr(c) + c.lidarr@.len()
}

pub open spec fn off_overseerr(c: Config) -> int {
    off_readarr(c) + c.readarr@.len()
}

pub open spec fn off_jellyseerr(c: Config) -> int {
    off_overseerr(c) + (if c.overseerr is Some {
        1int
    } else {
        0int
    })
}

pub open spec fn off_plex(c: Config) -> int {
    off_jellyseerr(c) + (if c.jellyseerr is Some {
        1int
    } else {
        0int
    })
}

pub open spec fn off_jellyfin(c: Config) -> int {
    off_plex(c) + 2 * c.plex@.len()
}

} // verus!
