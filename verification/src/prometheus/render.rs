//! Lifting each task result into its gauge families.

use vstd::prelude::*;
use vstd::string::*;

use crate::prometheus::{
    add_family, family, gauge_bool, keyed_family, label, models, prefixed_name, samples_model,
    scalar_family, spec_merge_all, spec_merge_into, Format, GFamily, GLabel, GSample, Label,
    MetricFamily, Sample,
};
use crate::providers::lidarr::LidarrArtist;
use crate::providers::overseerr::OverseerrRequest;
use crate::providers::radarr::RadarrMovie;
use crate::providers::readarr::ReadarrAuthor;
use crate::providers::sonarr::SonarrEpisode;
use crate::providers::structs::tautulli::Library;
use crate::providers::structs::{BandwidthLocation, LibraryCount, MediaType, Session, User};
use crate::providers::tautulli::{SessionSummary, UserWatch};
use crate::tasks::{
    LibraryResult, LidarrArtistResult, OverseerrRequestResult, RadarrMovieResult,
    ReadarrAuthorResult, SessionResult, SonarrEpisodeResult, SonarrMissingResult, TaskResult,
    TautulliHistoryResult, TautulliLibraryResult, TautulliSessionResult,
};
use crate::text::{i128_to_string, parse_count, spec_int_string, spec_parse_count, str_eq};

verus! {

/// One episode series: its numbering and titles, valued by whether
/// the episode has a file.
pub open spec fn sonarr_episode_sample(name: Seq<char>, e: SonarrEpisode) -> GSample {
    GSample {
        labels: seq![
            GLabel { key: "season_number"@, value: spec_int_string(e.season_number as int) },
            GLabel { key: "episode_number"@, value: spec_int_string(e.episode_number as int) },
            GLabel { key: "title"@, value: e.title@ },
            GLabel { key: "serie"@, value: e.serie@ },
            GLabel { key: "sxe"@, value: e.sxe@ },
            GLabel { key: "name"@, value: name },
        ],
        value: gauge_bool(e.has_file),
    }
}

fn sonarr_episode_sample_exec(name: &String, e: &SonarrEpisode) -> (s: Sample)
    ensures
        s.model() == sonarr_episode_sample(name@, *e),
{
    let mut labels: Vec<Label> = Vec::new();
    labels.push(label("season_number", i128_to_string(e.season_number as i128)));
    labels.push(label("episode_number", i128_to_string(e.episode_number as i128)));
    labels.push(label("title", e.title.clone()));
    labels.push(label("serie", e.serie.clone()));
    labels.push(label("sxe", e.sxe.clone()));
    labels.push(label("name", name.clone()));
    let s = Sample { labels, value: if e.has_file { 1 } else { 0 } };
    proof {
        assert(s.model().labels =~= sonarr_episode_sample(name@, *e).labels);
        assert(s.model() =~= sonarr_episode_sample(name@, *e));
    }
    s
}

fn sonarr_episode_samples(name: &String, eps: &Vec<SonarrEpisode>) -> (r: Vec<Sample>)
    ensures
        samples_model(r@) == Seq::new(eps@.len(), |i: int| sonarr_episode_sample(name@, eps@[i])),
{
    let mut r: Vec<Sample> = Vec::new();
    proof {
        assert(samples_model(r@) =~= Seq::new(0, |i: int| sonarr_episode_sample(name@, eps@[i])));
    }
    let mut i: usize = 0;
    while i < eps.len()
        invariant
            i <= eps@.len(),
            r@.len() == i,
            samples_model(r@) == Seq::new(i as nat, |j: int| sonarr_episode_sample(name@, eps@[j])),
        decreases eps@.len() - i,
    {
        let s = sonarr_episode_sample_exec(name, &eps[i]);
        let ghost prev = r@;
        r.push(s);
        proof {
            let target = Seq::new((i + 1) as nat, |j: int| sonarr_episode_sample(name@, eps@[j]));
            assert forall|j: int| 0 <= j < samples_model(r@).len() implies samples_model(r@)[j]
                == target[j] by {
                if j < i as int {
                    assert(r@[j] == prev[j]);
                    assert(samples_model(prev)[j] == target[j]);
                } else {
                    assert(r@[j] == s);
                }
            }
            assert(samples_model(r@) =~= target);
        }
        i += 1;
    }
    proof {
        assert(samples_model(r@) =~= Seq::new(
            eps@.len(),
            |j: int| sonarr_episode_sample(name@, eps@[j]),
        ));
    }
    r
}

/// The two Sonarr families of one result: one episode series per
/// calendar entry, and the episode total, both tagged with the
/// instance name. The total always equals the number of episode
/// series.
pub open spec fn spec_sonarr_families(name: Seq<char>, eps: Seq<SonarrEpisode>, missing: bool) -> Seq<
    GFamily,
> {
    seq![
        GFamily {
            name: if missing {
                "sonarr_missing_episode"@
            } else {
                "sonarr_today_episode"@
            },
            help: if missing {
                "Sonarr missing episode status"@
            } else {
                "Sonarr today episode status"@
            },
            samples: Seq::new(eps.len(), |i: int| sonarr_episode_sample(name, eps[i])),
        },
        GFamily {
            name: if missing {
                "sonarr_missing_episodes_total"@
            } else {
                "sonarr_today_episodes_total"@
            },
            help: if missing {
                "Sonarr missing episode count"@
            } else {
                "Sonarr today episode count"@
            },
            samples: seq![
                GSample {
                    labels: seq![GLabel { key: "name"@, value: name }],
                    value: eps.len() as int,
                },
            ],
        },
    ]
}

fn render_sonarr(
    acc: &mut Vec<MetricFamily>,
    name: &String,
    eps: &Vec<SonarrEpisode>,
    missing: bool,
)
    ensures
        models(final(acc)@) == spec_merge_all(
            models(old(acc)@),
            spec_sonarr_families(name@, eps@, missing),
        ),
{
    let ghost fams = spec_sonarr_families(name@, eps@, missing);
    let samples = sonarr_episode_samples(name, eps);
    let f1 = if missing {
        family(String::from_str("sonarr_missing_episode"), "Sonarr missing episode status", samples)
    } else {
        family(String::from_str("sonarr_today_episode"), "Sonarr today episode status", samples)
    };
    proof {
        assert(f1.model() =~= fams[0]);
    }
    add_family(acc, f1);
    let f2 = if missing {
        keyed_family(
            String::from_str("sonarr_missing_episodes_total"),
            "Sonarr missing episode count",
            "name",
            name.clone(),
            eps.len() as i128,
        )
    } else {
        keyed_family(
            String::from_str("sonarr_today_episodes_total"),
            "Sonarr today episode count",
            "name",
            name.clone(),
            eps.len() as i128,
        )
    };
    proof {
        assert(f2.model() =~= fams[1]);
    }
    add_family(acc, f2);
    proof {
        let m0 = models(old(acc)@);
        assert(seq![fams[0]].drop_last() =~= Seq::<GFamily>::empty());
        assert(spec_merge_all(m0, Seq::<GFamily>::empty()) == m0);
        assert(spec_merge_all(m0, seq![fams[0]]) == spec_merge_into(m0, fams[0]));
        assert(fams.drop_last() =~= seq![fams[0]]);
        assert(spec_merge_all(m0, fams) == spec_merge_into(spec_merge_into(m0, fams[0]), fams[1]));
        assert(models(acc@) == spec_merge_all(m0, fams));
    }
}

/// Registers today's episodes.
pub fn render_sonarr_today(acc: &mut Vec<MetricFamily>, result: &SonarrEpisodeResult)
    ensures
        models(final(acc)@) == spec_merge_all(
            models(old(acc)@),
            spec_sonarr_families(result.name@, result.episodes@, false),
        ),
{
    render_sonarr(acc, &result.name, &result.episodes, false);
}

/// Registers last week's missing episodes.
pub fn render_sonarr_missing(acc: &mut Vec<MetricFamily>, result: &SonarrMissingResult)
    ensures
        models(final(acc)@) == spec_merge_all(
            models(old(acc)@),
            spec_sonarr_families(result.name@, result.episodes@, true),
        ),
{
    render_sonarr(acc, &result.name, &result.episodes, true);
}

/// One movie series under one of the three per-movie families.
pub open spec fn radarr_movie_sample(name: Seq<char>, m: RadarrMovie, value: int) -> GSample {
    GSample {
        labels: seq![
            GLabel { key: "name"@, value: name },
            GLabel { key: "title"@, value: m.title@ },
        ],
        value: value,
    }
}

fn radarr_movie_sample_exec(name: &String, m: &RadarrMovie, value: i128) -> (s: Sample)
    ensures
        s.model() == radarr_movie_sample(name@, *m, value as int),
{
    let mut labels: Vec<Label> = Vec::new();
    labels.push(label("name", name.clone()));
    labels.push(label("title", m.title.clone()));
    let s = Sample { labels, value };
    proof {
        assert(s.model().labels =~= radarr_movie_sample(name@, *m, value as int).labels);
        assert(s.model() =~= radarr_movie_sample(name@, *m, value as int));
    }
    s
}

/// Which flag of a movie one family reports.
pub enum MovieFlag {
    HasFile,
    Monitored,
    Available,
}

pub open spec fn movie_flag_value(m: RadarrMovie, flag: MovieFlag) -> int {
    match flag {
        MovieFlag::HasFile => gauge_bool(m.has_file),
        MovieFlag::Monitored => gauge_bool(m.monitored),
        MovieFlag::Available => gauge_bool(m.is_available),
    }
}

fn radarr_movie_samples(name: &String, movies: &Vec<RadarrMovie>, flag: MovieFlag) -> (r: Vec<
    Sample,
>)
    ensures
        samples_model(r@) == Seq::new(
            movies@.len(),
            |i: int| radarr_movie_sample(name@, movies@[i], movie_flag_value(movies@[i], flag)),
        ),
{
    let mut r: Vec<Sample> = Vec::new();
    proof {
        assert(samples_model(r@) =~= Seq::new(
            0,
            |i: int| radarr_movie_sample(name@, movies@[i], movie_flag_value(movies@[i], flag)),
        ));
    }
    let mut i: usize = 0;
    while i < movies.len()
        invariant
            i <= movies@.len(),
            r@.len() == i,
            samples_model(r@) == Seq::new(
                i as nat,
                |j: int| radarr_movie_sample(name@, movies@[j], movie_flag_value(movies@[j], flag)),
            ),
        decreases movies@.len() - i,
    {
        let m = &movies[i];
        let v: i128 = match flag {
            MovieFlag::HasFile => if m.has_file {
                1
            } else {
                0
            },
            MovieFlag::Monitored => if m.monitored {
                1
            } else {
                0
            },
            MovieFlag::Available => if m.is_available {
                1
            } else {
                0
            },
        };
        let s = radarr_movie_sample_exec(name, m, v);
        let ghost prev = r@;
        r.push(s);
        proof {
            let target = Seq::new(
                (i + 1) as nat,
                |j: int| radarr_movie_sample(name@, movies@[j], movie_flag_value(movies@[j], flag)),
            );
            assert forall|j: int| 0 <= j < samples_model(r@).len() implies samples_model(r@)[j]
                == target[j] by {
                if j < i as int {
                    assert(r@[j] == prev[j]);
                    assert(samples_model(prev)[j] == target[j]);
                } else {
                    assert(r@[j] == s);
                }
            }
            assert(samples_model(r@) =~= target);
        }
        i += 1;
    }
    proof {
        assert(samples_model(r@) =~= Seq::new(
            movies@.len(),
            |j: int| radarr_movie_sample(name@, movies@[j], movie_flag_value(movies@[j], flag)),
        ));
    }
    r
}

/// How many movies are monitored.
pub open spec fn spec_count_monitored(ms: Seq<RadarrMovie>) -> int
    decreases ms.len(),
{
    if ms.len() == 0 {
        0
    } else {
        spec_count_monitored(ms.drop_last()) + if ms.last().monitored {
            1int
        } else {
            0int
        }
    }
}

/// How many movies are missing but available.
pub open spec fn spec_count_missing(ms: Seq<RadarrMovie>) -> int
    decreases ms.len(),
{
    if ms.len() == 0 {
        0
    } else {
        spec_count_missing(ms.drop_last()) + if ms.last().missing_available {
            1int
        } else {
            0int
        }
    }
}

proof fn lemma_radarr_counts_bound(ms: Seq<RadarrMovie>)
    ensures
        0 <= spec_count_monitored(ms) <= ms.len(),
        0 <= spec_count_missing(ms) <= ms.len(),
    decreases ms.len(),
{
    if ms.len() > 0 {
        lemma_radarr_counts_bound(ms.drop_last());
    }
}

fn radarr_counts(movies: &Vec<RadarrMovie>) -> (r: (usize, usize))
    ensures
        r.0 == spec_count_monitored(movies@),
        r.1 == spec_count_missing(movies@),
{
    let mut monitored: usize = 0;
    let mut missing: usize = 0;
    let mut i: usize = 0;
    while i < movies.len()
        invariant
            i <= movies@.len(),
            monitored == spec_count_monitored(movies@.take(i as int)),
            missing == spec_count_missing(movies@.take(i as int)),
        decreases movies@.len() - i,
    {
        proof {
            assert(movies@.take(i + 1).drop_last() =~= movies@.take(i as int));
            assert(movies@.take(i + 1).last() == movies@[i as int]);
            lemma_radarr_counts_bound(movies@.take(i as int));
        }
        if movies[i].monitored {
            monitored += 1;
        }
        if movies[i].missing_available {
            missing += 1;
        }
        i += 1;
    }
    proof {
        assert(movies@.take(movies@.len() as int) =~= movies@);
    }
    (monitored, missing)
}

/// The six Radarr families of one result: per-movie flags and the
/// instance totals.
pub open spec fn spec_radarr_families(name: Seq<char>, ms: Seq<RadarrMovie>) -> Seq<GFamily> {
    seq![
        GFamily {
            name: "radarr_movie_has_file"@,
            help: "Radarr movie has a file"@,
            samples: Seq::new(
                ms.len(),
                |i: int| radarr_movie_sample(name, ms[i], movie_flag_value(ms[i], MovieFlag::HasFile)),
            ),
        },
        GFamily {
            name: "radarr_movie_monitored"@,
            help: "Radarr movie is monitored"@,
            samples: Seq::new(
                ms.len(),
                |i: int| radarr_movie_sample(name, ms[i], movie_flag_value(ms[i], MovieFlag::Monitored)),
            ),
        },
        GFamily {
            name: "radarr_movie_available"@,
            help: "Radarr movie is available"@,
            samples: Seq::new(
                ms.len(),
                |i: int| radarr_movie_sample(name, ms[i], movie_flag_value(ms[i], MovieFlag::Available)),
            ),
        },
        GFamily {
            name: "radarr_movies_total"@,
            help: "Radarr movie count"@,
            samples: seq![
                GSample { labels: seq![GLabel { key: "name"@, value: name }], value: ms.len() as int },
            ],
        },
        GFamily {
            name: "radarr_movies_monitored_total"@,
            help: "Radarr monitored movie count"@,
            samples: seq![
                GSample {
                    labels: seq![GLabel { key: "name"@, value: name }],
                    value: spec_count_monitored(ms),
                },
            ],
        },
        GFamily {
            name: "radarr_movies_missing_total"@,
            help: "Radarr missing available movie count"@,
            samples: seq![
                GSample {
                    labels: seq![GLabel { key: "name"@, value: name }],
                    value: spec_count_missing(ms),
                },
            ],
        },
    ]
}

/// Registers one Radarr result.
pub fn render_radarr(acc: &mut Vec<MetricFamily>, result: &RadarrMovieResult)
    ensures
        models(final(acc)@) == spec_merge_all(
            models(old(acc)@),
            spec_radarr_families(result.name@, result.movies@),
        ),
{
    let ghost fams = spec_radarr_families(result.name@, result.movies@);
    let name = &result.name;
    let movies = &result.movies;
    let f1 = family(
        String::from_str("radarr_movie_has_file"),
        "Radarr movie has a file",
        radarr_movie_samples(name, movies, MovieFlag::HasFile),
    );
    proof {
        assert(f1.model() =~= fams[0]);
    }
    add_family(acc, f1);
    let f2 = family(
        String::from_str("radarr_movie_monitored"),
        "Radarr movie is monitored",
        radarr_movie_samples(name, movies, MovieFlag::Monitored),
    );
    proof {
        assert(f2.model() =~= fams[1]);
    }
    add_family(acc, f2);
    let f3 = family(
        String::from_str("radarr_movie_available"),
        "Radarr movie is available",
        radarr_movie_samples(name, movies, MovieFlag::Available),
    );
    proof {
        assert(f3.model() =~= fams[2]);
    }
    add_family(acc, f3);
    let (monitored, missing) = radarr_counts(movies);
    let f4 = keyed_family(
        String::from_str("radarr_movies_total"),
        "Radarr movie count",
        "name",
        name.clone(),
        movies.len() as i128,
    );
    proof {
        assert(f4.model() =~= fams[3]);
    }
    add_family(acc, f4);
    let f5 = keyed_family(
        String::from_str("radarr_movies_monitored_total"),
        "Radarr monitored movie count",
        "name",
        name.clone(),
        monitored as i128,
    );
    proof {
        assert(f5.model() =~= fams[4]);
    }
    add_family(acc, f5);
    let f6 = keyed_family(
        String::from_str("radarr_movies_missing_total"),
        "Radarr missing available movie count",
        "name",
        name.clone(),
        missing as i128,
    );
    proof {
        assert(f6.model() =~= fams[5]);
    }
    add_family(acc, f6);
    proof {
        let m0 = models(old(acc)@);
        assert(seq![fams[0]].drop_last() =~= Seq::<GFamily>::empty());
        assert(spec_merge_all(m0, Seq::<GFamily>::empty()) == m0);
        assert(spec_merge_all(m0, seq![fams[0]]) == spec_merge_into(m0, fams[0]));
        assert(seq![fams[0], fams[1]].drop_last() =~= seq![fams[0]]);
        let m1 = spec_merge_into(m0, fams[0]);
        assert(spec_merge_all(m0, seq![fams[0], fams[1]]) == spec_merge_into(m1, fams[1]));
        assert(seq![fams[0], fams[1], fams[2]].drop_last() =~= seq![fams[0], fams[1]]);
        let m2 = spec_merge_into(m1, fams[1]);
        assert(spec_merge_all(m0, seq![fams[0], fams[1], fams[2]]) == spec_merge_into(m2, fams[2]));
        assert(seq![fams[0], fams[1], fams[2], fams[3]].drop_last() =~= seq![
            fams[0],
            fams[1],
            fams[2],
        ]);
        let m3 = spec_merge_into(m2, fams[2]);
        assert(spec_merge_all(m0, seq![fams[0], fams[1], fams[2], fams[3]]) == spec_merge_into(
            m3,
            fams[3],
        ));
        assert(seq![fams[0], fams[1], fams[2], fams[3], fams[4]].drop_last() =~= seq![
            fams[0],
            fams[1],
            fams[2],
            fams[3],
        ]);
        let m4 = spec_merge_into(m3, fams[3]);
        assert(spec_merge_all(m0, seq![fams[0], fams[1], fams[2], fams[3], fams[4]])
            == spec_merge_into(m4, fams[4]));
        assert(fams.drop_last() =~= seq![fams[0], fams[1], fams[2], fams[3], fams[4]]);
        let m5 = spec_merge_into(m4, fams[4]);
        assert(spec_merge_all(m0, fams) == spec_merge_into(m5, fams[5]));
        assert(models(acc@) == spec_merge_all(m0, fams));
    }
}

/// One artist series, valued by whether the artist is monitored.
pub open spec fn lidarr_artist_sample(name: Seq<char>, a: LidarrArtist) -> GSample {
    GSample {
        labels: seq![
            GLabel { key: "name"@, value: name },
            GLabel { key: "artist"@, value: a.name@ },
        ],
        value: gauge_bool(a.monitored),
    }
}

fn lidarr_artist_samples(name: &String, artists: &Vec<LidarrArtist>) -> (r: Vec<Sample>)
    ensures
        samples_model(r@) == Seq::new(
            artists@.len(),
            |i: int| lidarr_artist_sample(name@, artists@[i]),
        ),
{
    let mut r: Vec<Sample> = Vec::new();
    proof {
        assert(samples_model(r@) =~= Seq::new(0, |i: int| lidarr_artist_sample(name@, artists@[i])));
    }
    let mut i: usize = 0;
    while i < artists.len()
        invariant
            i <= artists@.len(),
            r@.len() == i,
            samples_model(r@) == Seq::new(i as nat, |j: int| lidarr_artist_sample(name@, artists@[j])),
        decreases artists@.len() - i,
    {
        let a = &artists[i];
        let mut labels: Vec<Label> = Vec::new();
        labels.push(label("name", name.clone()));
        labels.push(label("artist", a.name.clone()));
        let s = Sample { labels, value: if a.monitored { 1 } else { 0 } };
        proof {
            assert(s.model().labels =~= lidarr_artist_sample(name@, artists@[i as int]).labels);
            assert(s.model() =~= lidarr_artist_sample(name@, artists@[i as int]));
        }
        let ghost prev = r@;
        r.push(s);
        proof {
            let target = Seq::new((i + 1) as nat, |j: int| lidarr_artist_sample(name@, artists@[j]));
            assert forall|j: int| 0 <= j < samples_model(r@).len() implies samples_model(r@)[j]
                == target[j] by {
                if j < i as int {
                    assert(r@[j] == prev[j]);
                    assert(samples_model(prev)[j] == target[j]);
                } else {
                    assert(r@[j] == s);
                }
            }
            assert(samples_model(r@) =~= target);
        }
        i += 1;
    }
    proof {
        assert(samples_model(r@) =~= Seq::new(
            artists@.len(),
            |j: int| lidarr_artist_sample(name@, artists@[j]),
        ));
    }
    r
}

/// How many artists are monitored.
pub open spec fn spec_count_monitored_artists(s: Seq<LidarrArtist>) -> int
    decreases s.len(),
{
    if s.len() == 0 {
        0
    } else {
        spec_count_monitored_artists(s.drop_last()) + if s.last().monitored {
            1int
        } else {
            0int
        }
    }
}

/// The exact sum of all track counts.
pub open spec fn spec_track_sum(s: Seq<LidarrArtist>) -> int
    decreases s.len(),
{
    if s.len() == 0 {
        0
    } else {
        spec_track_sum(s.drop_last()) + s.last().track_file_count
    }
}

proof fn lemma_lidarr_bounds(s: Seq<LidarrArtist>)
    ensures
        0 <= spec_count_monitored_artists(s) <= s.len(),
        -9223372036854775808 * s.len() <= spec_track_sum(s) <= 9223372036854775808 * s.len(),
    decreases s.len(),
{
    if s.len() > 0 {
        lemma_lidarr_bounds(s.drop_last());
    }
}

fn lidarr_counts(artists: &Vec<LidarrArtist>) -> (r: (usize, i128))
    ensures
        r.0 == spec_count_monitored_artists(artists@),
        r.1 == spec_track_sum(artists@),
{
    let mut monitored: usize = 0;
    let mut tracks: i128 = 0;
    let mut i: usize = 0;
    while i < artists.len()
        invariant
            i <= artists@.len(),
            monitored <= i,
            monitored == spec_count_monitored_artists(artists@.take(i as int)),
            tracks == spec_track_sum(artists@.take(i as int)),
            -9223372036854775808 * (i as int) <= tracks <= 9223372036854775808 * (i as int),
        decreases artists@.len() - i,
    {
        proof {
            assert(artists@.take(i + 1).drop_last() =~= artists@.take(i as int));
            assert(artists@.take(i + 1).last() == artists@[i as int]);
        }
        if artists[i].monitored {
            monitored += 1;
        }
        tracks = tracks + artists[i].track_file_count as i128;
        i += 1;
    }
    proof {
        assert(artists@.take(artists@.len() as int) =~= artists@);
    }
    (monitored, tracks)
}

/// The four Lidarr families of one result.
pub open spec fn spec_lidarr_families(name: Seq<char>, artists: Seq<LidarrArtist>) -> Seq<GFamily> {
    seq![
        GFamily {
            name: "lidarr_artist_monitored"@,
            help: "Lidarr artist is monitored"@,
            samples: Seq::new(artists.len(), |i: int| lidarr_artist_sample(name, artists[i])),
        },
        GFamily {
            name: "lidarr_artists_total"@,
            help: "Lidarr artist count"@,
            samples: seq![
                GSample {
                    labels: seq![GLabel { key: "name"@, value: name }],
                    value: artists.len() as int,
                },
            ],
        },
        GFamily {
            name: "lidarr_monitored_artists_total"@,
            help: "Lidarr monitored artist count"@,
            samples: seq![
                GSample {
                    labels: seq![GLabel { key: "name"@, value: name }],
                    value: spec_count_monitored_artists(artists),
                },
            ],
        },
        GFamily {
            name: "lidarr_tracks_total"@,
            help: "Lidarr track file count"@,
            samples: seq![
                GSample {
                    labels: seq![GLabel { key: "name"@, value: name }],
                    value: spec_track_sum(artists),
                },
            ],
        },
    ]
}

/// Registers one Lidarr result.
pub fn render_lidarr(acc: &mut Vec<MetricFamily>, result: &LidarrArtistResult)
    ensures
        models(final(acc)@) == spec_merge_all(
            models(old(acc)@),
            spec_lidarr_families(result.name@, result.artists@),
        ),
{
    let ghost fams = spec_lidarr_families(result.name@, result.artists@);
    let name = &result.name;
    let (monitored, tracks) = lidarr_counts(&result.artists);
    let mut fs: Vec<MetricFamily> = Vec::new();
    fs.push(
        family(
            String::from_str("lidarr_artist_monitored"),
            "Lidarr artist is monitored",
            lidarr_artist_samples(name, &result.artists),
        ),
    );
    fs.push(
        keyed_family(
            String::from_str("lidarr_artists_total"),
            "Lidarr artist count",
            "name",
            name.clone(),
            result.artists.len() as i128,
        ),
    );
    fs.push(
        keyed_family(
            String::from_str("lidarr_monitored_artists_total"),
            "Lidarr monitored artist count",
            "name",
            name.clone(),
            monitored as i128,
        ),
    );
    fs.push(
        keyed_family(
            String::from_str("lidarr_tracks_total"),
            "Lidarr track file count",
            "name",
            name.clone(),
            tracks,
        ),
    );
    proof {
        assert(models(fs@) =~= fams);
    }
    crate::prometheus::add_families(acc, fs);
}

/// One author series, valued by whether the author is monitored.
pub open spec fn readarr_author_sample(name: Seq<char>, a: ReadarrAuthor) -> GSample {
    GSample {
        labels: seq![
            GLabel { key: "name"@, value: name },
            GLabel { key: "author"@, value: a.name@ },
        ],
        value: gauge_bool(a.monitored),
    }
}

fn readarr_author_samples(name: &String, authors: &Vec<ReadarrAuthor>) -> (r: Vec<Sample>)
    ensures
        samples_model(r@) == Seq::new(
            authors@.len(),
            |i: int| readarr_author_sample(name@, authors@[i]),
        ),
{
    let mut r: Vec<Sample> = Vec::new();
    proof {
        assert(samples_model(r@) =~= Seq::new(0, |i: int| readarr_author_sample(name@, authors@[i])));
    }
    let mut i: usize = 0;
    while i < authors.len()
        invariant
            i <= authors@.len(),
            r@.len() == i,
            samples_model(r@) == Seq::new(
                i as nat,
                |j: int| readarr_author_sample(name@, authors@[j]),
            ),
        decreases authors@.len() - i,
    {
        let a = &authors[i];
        let mut labels: Vec<Label> = Vec::new();
        labels.push(label("name", name.clone()));
        labels.push(label("author", a.name.clone()));
        let s = Sample { labels, value: if a.monitored { 1 } else { 0 } };
        proof {
            assert(s.model().labels =~= readarr_author_sample(name@, authors@[i as int]).labels);
            assert(s.model() =~= readarr_author_sample(name@, authors@[i as int]));
        }
        let ghost prev = r@;
        r.push(s);
        proof {
            let target = Seq::new((i + 1) as nat, |j: int| readarr_author_sample(name@, authors@[j]));
            assert forall|j: int| 0 <= j < samples_model(r@).len() implies samples_model(r@)[j]
                == target[j] by {
                if j < i as int {
                    assert(r@[j] == prev[j]);
                    assert(samples_model(prev)[j] == target[j]);
                } else {
                    assert(r@[j] == s);
                }
            }
            assert(samples_model(r@) =~= target);
        }
        i += 1;
    }
    proof {
        assert(samples_model(r@) =~= Seq::new(
            authors@.len(),
            |j: int| readarr_author_sample(name@, authors@[j]),
        ));
    }
    r
}

/// How many authors are monitored.
pub open spec fn spec_count_monitored_authors(s: Seq<ReadarrAuthor>) -> int
    decreases s.len(),
{
    if s.len() == 0 {
        0
    } else {
        spec_count_monitored_authors(s.drop_last()) + if s.last().monitored {
            1int
        } else {
            0int
        }
    }
}

/// The exact sum of all book counts.
pub open spec fn spec_book_sum(s: Seq<ReadarrAuthor>) -> int
    decreases s.len(),
{
    if s.len() == 0 {
        0
    } else {
        spec_book_sum(s.drop_last()) + s.last().book_file_count
    }
}

fn readarr_counts(authors: &Vec<ReadarrAuthor>) -> (r: (usize, i128))
    ensures
        r.0 == spec_count_monitored_authors(authors@),
        r.1 == spec_book_sum(authors@),
{
    let mut monitored: usize = 0;
    let mut books: i128 = 0;
    let mut i: usize = 0;
    while i < authors.len()
        invariant
            i <= authors@.len(),
            monitored <= i,
            monitored == spec_count_monitored_authors(authors@.take(i as int)),
            books == spec_book_sum(authors@.take(i as int)),
            -9223372036854775808 * (i as int) <= books <= 9223372036854775808 * (i as int),
        decreases authors@.len() - i,
    {
        proof {
            assert(authors@.take(i + 1).drop_last() =~= authors@.take(i as int));
            assert(authors@.take(i + 1).last() == authors@[i as int]);
        }
        if authors[i].monitored {
            monitored += 1;
        }
        books = books + authors[i].book_file_count as i128;
        i += 1;
    }
    proof {
        assert(authors@.take(authors@.len() as int) =~= authors@);
    }
    (monitored, books)
}

/// The four Readarr families of one result.
pub open spec fn spec_readarr_families(name: Seq<char>, authors: Seq<ReadarrAuthor>) -> Seq<
    GFamily,
> {
    seq![
        GFamily {
            name: "readarr_author_monitored"@,
            help: "Readarr author is monitored"@,
            samples: Seq::new(authors.len(), |i: int| readarr_author_sample(name, authors[i])),
        },
        GFamily {
            name: "readarr_authors_total"@,
            help: "Readarr author count"@,
            samples: seq![
                GSample {
                    labels: seq![GLabel { key: "name"@, value: name }],
                    value: authors.len() as int,
                },
            ],
        },
        GFamily {
            name: "readarr_monitored_authors_total"@,
            help: "Readarr monitored author count"@,
            samples: seq![
                GSample {
                    labels: seq![GLabel { key: "name"@, value: name }],
                    value: spec_count_monitored_authors(authors),
                },
            ],
        },
        GFamily {
            name: "readarr_books_total"@,
            help: "Readarr book file count"@,
            samples: seq![
                GSample {
                    labels: seq![GLabel { key: "name"@, value: name }],
                    value: spec_book_sum(authors),
                },
            ],
        },
    ]
}

/// Registers one Readarr result.
pub fn render_readarr(acc: &mut Vec<MetricFamily>, result: &ReadarrAuthorResult)
    ensures
        models(final(acc)@) == spec_merge_all(
            models(old(acc)@),
            spec_readarr_families(result.name@, result.authors@),
        ),
{
    let ghost fams = spec_readarr_families(result.name@, result.authors@);
    let name = &result.name;
    let (monitored, books) = readarr_counts(&result.authors);
    let mut fs: Vec<MetricFamily> = Vec::new();
    fs.push(
        family(
            String::from_str("readarr_author_monitored"),
            "Readarr author is monitored",
            readarr_author_samples(name, &result.authors),
        ),
    );
    fs.push(
        keyed_family(
            String::from_str("readarr_authors_total"),
            "Readarr author count",
            "name",
            name.clone(),
            result.authors.len() as i128,
        ),
    );
    fs.push(
        keyed_family(
            String::from_str("readarr_monitored_authors_total"),
            "Readarr monitored author count",
            "name",
            name.clone(),
            monitored as i128,
        ),
    );
    fs.push(
        keyed_family(
            String::from_str("readarr_books_total"),
            "Readarr book file count",
            "name",
            name.clone(),
            books,
        ),
    );
    proof {
        assert(models(fs@) =~= fams);
    }
    crate::prometheus::add_families(acc, fs);
}

/// One request series under the status or media-status family. The
/// status codes surface as gauge values unchanged.
pub open spec fn seerr_request_sample(r: OverseerrRequest, value: int) -> GSample {
    GSample {
        labels: seq![
            GLabel { key: "media_type"@, value: r.media_type@ },
            GLabel { key: "requested_by"@, value: r.requested_by@ },
            GLabel { key: "media_title"@, value: r.media_title@ },
        ],
        value: value,
    }
}

/// Which code of a request one family reports.
pub open spec fn seerr_code(r: OverseerrRequest, media: bool) -> int {
    if media {
        r.media_status as int
    } else {
        r.status as int
    }
}

fn seerr_request_samples(requests: &Vec<OverseerrRequest>, media: bool) -> (r: Vec<Sample>)
    ensures
        samples_model(r@) == Seq::new(
            requests@.len(),
            |i: int| seerr_request_sample(requests@[i], seerr_code(requests@[i], media)),
        ),
{
    let mut r: Vec<Sample> = Vec::new();
    proof {
        assert(samples_model(r@) =~= Seq::new(
            0,
            |i: int| seerr_request_sample(requests@[i], seerr_code(requests@[i], media)),
        ));
    }
    let mut i: usize = 0;
    while i < requests.len()
        invariant
            i <= requests@.len(),
            r@.len() == i,
            samples_model(r@) == Seq::new(
                i as nat,
                |j: int| seerr_request_sample(requests@[j], seerr_code(requests@[j], media)),
            ),
        decreases requests@.len() - i,
    {
        let q = &requests[i];
        let mut labels: Vec<Label> = Vec::new();
        labels.push(label("media_type", q.media_type.clone()));
        labels.push(label("requested_by", q.requested_by.clone()));
        labels.push(label("media_title", q.media_title.clone()));
        let v: i128 = if media {
            q.media_status as i128
        } else {
            q.status as i128
        };
        let s = Sample { labels, value: v };
        proof {
            assert(s.model().labels =~= seerr_request_sample(
                requests@[i as int],
                seerr_code(requests@[i as int], media),
            ).labels);
            assert(s.model() =~= seerr_request_sample(
                requests@[i as int],
                seerr_code(requests@[i as int], media),
            ));
        }
        let ghost prev = r@;
        r.push(s);
        proof {
            let target = Seq::new(
                (i + 1) as nat,
                |j: int| seerr_request_sample(requests@[j], seerr_code(requests@[j], media)),
            );
            assert forall|j: int| 0 <= j < samples_model(r@).len() implies samples_model(r@)[j]
                == target[j] by {
                if j < i as int {
                    assert(r@[j] == prev[j]);
                    assert(samples_model(prev)[j] == target[j]);
                } else {
                    assert(r@[j] == s);
                }
            }
            assert(samples_model(r@) =~= target);
        }
        i += 1;
    }
    proof {
        assert(samples_model(r@) =~= Seq::new(
            requests@.len(),
            |j: int| seerr_request_sample(requests@[j], seerr_code(requests@[j], media)),
        ));
    }
    r
}

/// How many requests carry one request-status code.
pub open spec fn spec_count_status(s: Seq<OverseerrRequest>, code: int) -> int
    decreases s.len(),
{
    if s.len() == 0 {
        0
    } else {
        spec_count_status(s.drop_last(), code) + if s.last().status == code {
            1int
        } else {
            0int
        }
    }
}

fn count_status(requests: &Vec<OverseerrRequest>, code: i64) -> (r: usize)
    ensures
        r == spec_count_status(requests@, code as int),
{
    let mut count: usize = 0;
    let mut i: usize = 0;
    while i < requests.len()
        invariant
            i <= requests@.len(),
            count <= i,
            count == spec_count_status(requests@.take(i as int), code as int),
        decreases requests@.len() - i,
    {
        proof {
            assert(requests@.take(i + 1).drop_last() =~= requests@.take(i as int));
            assert(requests@.take(i + 1).last() == requests@[i as int]);
        }
        if requests[i].status == code {
            count += 1;
        }
        i += 1;
    }
    proof {
        assert(requests@.take(requests@.len() as int) =~= requests@);
    }
    count
}

/// The six request families of one Overseerr or Jellyseerr result,
/// prefixed by the instance kind. The totals count all requests and
/// those pending (1), approved (2) and declined (3).
pub open spec fn spec_seerr_families(kind: Seq<char>, reqs: Seq<OverseerrRequest>) -> Seq<GFamily> {
    seq![
        GFamily {
            name: kind + "_request_status"@,
            help: "Request status code"@,
            samples: Seq::new(
                reqs.len(),
                |i: int| seerr_request_sample(reqs[i], seerr_code(reqs[i], false)),
            ),
        },
        GFamily {
            name: kind + "_media_status"@,
            help: "Requested media status code"@,
            samples: Seq::new(
                reqs.len(),
                |i: int| seerr_request_sample(reqs[i], seerr_code(reqs[i], true)),
            ),
        },
        GFamily {
            name: kind + "_requests_total"@,
            help: "Request count"@,
            samples: seq![
                GSample { labels: seq![GLabel { key: "name"@, value: kind }], value: reqs.len() as int },
            ],
        },
        GFamily {
            name: kind + "_requests_pending_total"@,
            help: "Pending request count"@,
            samples: seq![
                GSample {
                    labels: seq![GLabel { key: "name"@, value: kind }],
                    value: spec_count_status(reqs, 1),
                },
            ],
        },
        GFamily {
            name: kind + "_requests_approved_total"@,
            help: "Approved request count"@,
            samples: seq![
                GSample {
                    labels: seq![GLabel { key: "name"@, value: kind }],
                    value: spec_count_status(reqs, 2),
                },
            ],
        },
        GFamily {
            name: kind + "_requests_declined_total"@,
            help: "Declined request count"@,
            samples: seq![
                GSample {
                    labels: seq![GLabel { key: "name"@, value: kind }],
                    value: spec_count_status(reqs, 3),
                },
            ],
        },
    ]
}

/// Registers one Overseerr or Jellyseerr result.
pub fn render_seerr(acc: &mut Vec<MetricFamily>, result: &OverseerrRequestResult)
    ensures
        models(final(acc)@) == spec_merge_all(
            models(old(acc)@),
            spec_seerr_families(result.kind@, result.requests@),
        ),
{
    let ghost fams = spec_seerr_families(result.kind@, result.requests@);
    let kind = &result.kind;
    let reqs = &result.requests;
    let mut fs: Vec<MetricFamily> = Vec::new();
    fs.push(
        family(
            prefixed_name(kind, "_request_status"),
            "Request status code",
            seerr_request_samples(reqs, false),
        ),
    );
    fs.push(
        family(
            prefixed_name(kind, "_media_status"),
            "Requested media status code",
            seerr_request_samples(reqs, true),
        ),
    );
    fs.push(
        keyed_family(
            prefixed_name(kind, "_requests_total"),
            "Request count",
            "name",
            kind.clone(),
            reqs.len() as i128,
        ),
    );
    fs.push(
        keyed_family(
            prefixed_name(kind, "_requests_pending_total"),
            "Pending request count",
            "name",
            kind.clone(),
            count_status(reqs, 1) as i128,
        ),
    );
    fs.push(
        keyed_family(
            prefixed_name(kind, "_requests_approved_total"),
            "Approved request count",
            "name",
            kind.clone(),
            count_status(reqs, 2) as i128,
        ),
    );
    fs.push(
        keyed_family(
            prefixed_name(kind, "_requests_declined_total"),
            "Declined request count",
            "name",
            kind.clone(),
            count_status(reqs, 3) as i128,
        ),
    );
    proof {
        assert(models(fs@) =~= fams);
    }
    crate::prometheus::add_families(acc, fs);
}

/// One Tautulli session-info series, always valued 1.
pub open spec fn tt_session_info_sample(s: SessionSummary) -> GSample {
    GSample {
        labels: seq![
            GLabel { key: "user"@, value: s.user@ },
            GLabel { key: "title"@, value: s.title@ },
            GLabel { key: "state"@, value: s.state@ },
            GLabel { key: "media_type"@, value: s.media_type@ },
            GLabel { key: "quality"@, value: s.quality@ },
            GLabel { key: "quality_profile"@, value: s.quality_profile@ },
            GLabel { key: "video_stream"@, value: s.video_stream@ },
        ],
        value: 1,
    }
}

/// One Tautulli progress series, valued by the numeric reading of the
/// reported percentage.
pub open spec fn tt_session_progress_sample(s: SessionSummary) -> GSample {
    GSample {
        labels: seq![
            GLabel { key: "user"@, value: s.user@ },
            GLabel { key: "title"@, value: s.title@ },
        ],
        value: spec_parse_count(s.progress@),
    }
}

/// One Tautulli location series, always valued 1.
pub open spec fn tt_session_location_sample(s: SessionSummary) -> GSample {
    GSample {
        labels: seq![
            GLabel { key: "user"@, value: s.user@ },
            GLabel { key: "title"@, value: s.title@ },
            GLabel { key: "city"@, value: s.location.city@ },
            GLabel { key: "country"@, value: s.location.country@ },
            GLabel { key: "latitude"@, value: s.location.latitude@ },
            GLabel { key: "longitude"@, value: s.location.longitude@ },
        ],
        value: 1,
    }
}

fn tt_info_samples(sessions: &Vec<SessionSummary>) -> (r: Vec<Sample>)
    ensures
        samples_model(r@) == Seq::new(sessions@.len(), |i: int| tt_session_info_sample(sessions@[i])),
{
    let mut r: Vec<Sample> = Vec::new();
    proof {
        assert(samples_model(r@) =~= Seq::new(0, |i: int| tt_session_info_sample(sessions@[i])));
    }
    let mut i: usize = 0;
    while i < sessions.len()
        invariant
            i <= sessions@.len(),
            r@.len() == i,
            samples_model(r@) == Seq::new(i as nat, |j: int| tt_session_info_sample(sessions@[j])),
        decreases sessions@.len() - i,
    {
        let q = &sessions[i];
        let mut labels: Vec<Label> = Vec::new();
        labels.push(label("user", q.user.clone()));
        labels.push(label("title", q.title.clone()));
        labels.push(label("state", q.state.clone()));
        labels.push(label("media_type", q.media_type.clone()));
        labels.push(label("quality", q.quality.clone()));
        labels.push(label("quality_profile", q.quality_profile.clone()));
        labels.push(label("video_stream", q.video_stream.clone()));
        let s = Sample { labels, value: 1 };
        proof {
            assert(s.model().labels =~= tt_session_info_sample(sessions@[i as int]).labels);
            assert(s.model() =~= tt_session_info_sample(sessions@[i as int]));
        }
        let ghost prev = r@;
        r.push(s);
        proof {
            let target = Seq::new((i + 1) as nat, |j: int| tt_session_info_sample(sessions@[j]));
            assert forall|j: int| 0 <= j < samples_model(r@).len() implies samples_model(r@)[j]
                == target[j] by {
                if j < i as int {
                    assert(r@[j] == prev[j]);
                    assert(samples_model(prev)[j] == target[j]);
                } else {
                    assert(r@[j] == s);
                }
            }
            assert(samples_model(r@) =~= target);
        }
        i += 1;
    }
    proof {
        assert(samples_model(r@) =~= Seq::new(
            sessions@.len(),
            |j: int| tt_session_info_sample(sessions@[j]),
        ));
    }
    r
}

fn tt_progress_samples(sessions: &Vec<SessionSummary>) -> (r: Vec<Sample>)
    ensures
        samples_model(r@) == Seq::new(
            sessions@.len(),
            |i: int| tt_session_progress_sample(sessions@[i]),
        ),
{
    let mut r: Vec<Sample> = Vec::new();
    proof {
        assert(samples_model(r@) =~= Seq::new(0, |i: int| tt_session_progress_sample(sessions@[i])));
    }
    let mut i: usize = 0;
    while i < sessions.len()
        invariant
            i <= sessions@.len(),
            r@.len() == i,
            samples_model(r@) == Seq::new(
                i as nat,
                |j: int| tt_session_progress_sample(sessions@[j]),
            ),
        decreases sessions@.len() - i,
    {
        let q = &sessions[i];
        let mut labels: Vec<Label> = Vec::new();
        labels.push(label("user", q.user.clone()));
        labels.push(label("title", q.title.clone()));
        let s = Sample { labels, value: parse_count(q.progress.as_str()) as i128 };
        proof {
            assert(s.model().labels =~= tt_session_progress_sample(sessions@[i as int]).labels);
            assert(s.model() =~= tt_session_progress_sample(sessions@[i as int]));
        }
        let ghost prev = r@;
        r.push(s);
        proof {
            let target = Seq::new((i + 1) as nat, |j: int| tt_session_progress_sample(sessions@[j]));
            assert forall|j: int| 0 <= j < samples_model(r@).len() implies samples_model(r@)[j]
                == target[j] by {
                if j < i as int {
                    assert(r@[j] == prev[j]);
                    assert(samples_model(prev)[j] == target[j]);
                } else {
                    assert(r@[j] == s);
                }
            }
            assert(samples_model(r@) =~= target);
        }
        i += 1;
    }
    proof {
        assert(samples_model(r@) =~= Seq::new(
            sessions@.len(),
            |j: int| tt_session_progress_sample(sessions@[j]),
        ));
    }
    r
}

fn tt_location_samples(sessions: &Vec<SessionSummary>) -> (r: Vec<Sample>)
    ensures
        samples_model(r@) == Seq::new(
            sessions@.len(),
            |i: int| tt_session_location_sample(sessions@[i]),
        ),
{
    let mut r: Vec<Sample> = Vec::new();
    proof {
        assert(samples_model(r@) =~= Seq::new(0, |i: int| tt_session_location_sample(sessions@[i])));
    }
    let mut i: usize = 0;
    while i < sessions.len()
        invariant
            i <= sessions@.len(),
            r@.len() == i,
            samples_model(r@) == Seq::new(
                i as nat,
                |j: int| tt_session_location_sample(sessions@[j]),
            ),
        decreases sessions@.len() - i,
    {
        let q = &sessions[i];
        let mut labels: Vec<Label> = Vec::new();
        labels.push(label("user", q.user.clone()));
        labels.push(label("title", q.title.clone()));
        labels.push(label("city", q.location.city.clone()));
        labels.push(label("country", q.location.country.clone()));
        labels.push(label("latitude", q.location.latitude.clone()));
        labels.push(label("longitude", q.location.longitude.clone()));
        let s = Sample { labels, value: 1 };
        proof {
            assert(s.model().labels =~= tt_session_location_sample(sessions@[i as int]).labels);
            assert(s.model() =~= tt_session_location_sample(sessions@[i as int]));
        }
        let ghost prev = r@;
        r.push(s);
        proof {
            let target = Seq::new((i + 1) as nat, |j: int| tt_session_location_sample(sessions@[j]));
            assert forall|j: int| 0 <= j < samples_model(r@).len() implies samples_model(r@)[j]
                == target[j] by {
                if j < i as int {
                    assert(r@[j] == prev[j]);
                    assert(samples_model(prev)[j] == target[j]);
                } else {
                    assert(r@[j] == s);
                }
            }
            assert(samples_model(r@) =~= target);
        }
        i += 1;
    }
    proof {
        assert(samples_model(r@) =~= Seq::new(
            sessions@.len(),
            |j: int| tt_session_location_sample(sessions@[j]),
        ));
    }
    r
}

/// The four Tautulli session families of one result. The session
/// count always equals the number of session-info series.
pub open spec fn spec_tautulli_session_families(sessions: Seq<SessionSummary>) -> Seq<GFamily> {
    seq![
        GFamily {
            name: "tautulli_session_count"@,
            help: "Tautulli session count"@,
            samples: seq![GSample { labels: Seq::empty(), value: sessions.len() as int }],
        },
        GFamily {
            name: "tautulli_session_info"@,
            help: "Tautulli session status"@,
            samples: Seq::new(sessions.len(), |i: int| tt_session_info_sample(sessions[i])),
        },
        GFamily {
            name: "tautulli_session_progress"@,
            help: "Tautulli session progress"@,
            samples: Seq::new(sessions.len(), |i: int| tt_session_progress_sample(sessions[i])),
        },
        GFamily {
            name: "tautulli_session_location"@,
            help: "Tautulli session location"@,
            samples: Seq::new(sessions.len(), |i: int| tt_session_location_sample(sessions[i])),
        },
    ]
}

/// Registers one Tautulli session result.
pub fn render_tautulli_session(acc: &mut Vec<MetricFamily>, result: &TautulliSessionResult)
    ensures
        models(final(acc)@) == spec_merge_all(
            models(old(acc)@),
            spec_tautulli_session_families(result.sessions@),
        ),
{
    let ghost fams = spec_tautulli_session_families(result.sessions@);
    let sessions = &result.sessions;
    let mut fs: Vec<MetricFamily> = Vec::new();
    fs.push(
        scalar_family(
            String::from_str("tautulli_session_count"),
            "Tautulli session count",
            sessions.len() as i128,
        ),
    );
    fs.push(
        family(
            String::from_str("tautulli_session_info"),
            "Tautulli session status",
            tt_info_samples(sessions),
        ),
    );
    fs.push(
        family(
            String::from_str("tautulli_session_progress"),
            "Tautulli session progress",
            tt_progress_samples(sessions),
        ),
    );
    fs.push(
        family(
            String::from_str("tautulli_session_location"),
            "Tautulli session location",
            tt_location_samples(sessions),
        ),
    );
    proof {
        assert(models(fs@) =~= fams);
    }
    crate::prometheus::add_families(acc, fs);
}

/// One Tautulli library series, shared by the library families.
pub open spec fn tt_library_sample(l: Library, value: int) -> GSample {
    GSample {
        labels: seq![
            GLabel { key: "section_name"@, value: l.section_name@ },
            GLabel { key: "section_type"@, value: l.section_type@ },
        ],
        value: value,
    }
}

fn tt_library_sample_exec(l: &Library, value: i128) -> (s: Sample)
    ensures
        s.model() == tt_library_sample(*l, value as int),
{
    let mut labels: Vec<Label> = Vec::new();
    labels.push(label("section_name", l.section_name.clone()));
    labels.push(label("section_type", l.section_type.clone()));
    let s = Sample { labels, value };
    proof {
        assert(s.model().labels =~= tt_library_sample(*l, value as int).labels);
        assert(s.model() =~= tt_library_sample(*l, value as int));
    }
    s
}

/// The item-count series of every library.
pub open spec fn tt_item_samples(ls: Seq<Library>) -> Seq<GSample> {
    Seq::new(ls.len(), |i: int| tt_library_sample(ls[i], spec_parse_count(ls[i].count@)))
}

/// The active series of every library.
pub open spec fn tt_active_samples(ls: Seq<Library>) -> Seq<GSample> {
    Seq::new(ls.len(), |i: int| tt_library_sample(ls[i], ls[i].is_active as int))
}

/// The parent-count series of the libraries that report one.
pub open spec fn tt_parent_samples(ls: Seq<Library>) -> Seq<GSample>
    decreases ls.len(),
{
    if ls.len() == 0 {
        Seq::empty()
    } else {
        tt_parent_samples(ls.drop_last()) + (match ls.last().parent_count {
            Some(c) => seq![tt_library_sample(ls.last(), spec_parse_count(c@))],
            None => Seq::<GSample>::empty(),
        })
    }
}

/// The child-count series of the libraries that report one.
pub open spec fn tt_child_samples(ls: Seq<Library>) -> Seq<GSample>
    decreases ls.len(),
{
    if ls.len() == 0 {
        Seq::empty()
    } else {
        tt_child_samples(ls.drop_last()) + (match ls.last().child_count {
            Some(c) => seq![tt_library_sample(ls.last(), spec_parse_count(c@))],
            None => Seq::<GSample>::empty(),
        })
    }
}

fn tt_library_item_samples(ls: &Vec<Library>) -> (r: Vec<Sample>)
    ensures
        samples_model(r@) == tt_item_samples(ls@),
{
    let mut r: Vec<Sample> = Vec::new();
    proof {
        assert(samples_model(r@) =~= Seq::new(
            0,
            |i: int| tt_library_sample(ls@[i], spec_parse_count(ls@[i].count@)),
        ));
    }
    let mut i: usize = 0;
    while i < ls.len()
        invariant
            i <= ls@.len(),
            r@.len() == i,
            samples_model(r@) == Seq::new(
                i as nat,
                |j: int| tt_library_sample(ls@[j], spec_parse_count(ls@[j].count@)),
            ),
        decreases ls@.len() - i,
    {
        let s = tt_library_sample_exec(&ls[i], parse_count(ls[i].count.as_str()) as i128);
        let ghost prev = r@;
        r.push(s);
        proof {
            let target = Seq::new(
                (i + 1) as nat,
                |j: int| tt_library_sample(ls@[j], spec_parse_count(ls@[j].count@)),
            );
            assert forall|j: int| 0 <= j < samples_model(r@).len() implies samples_model(r@)[j]
                == target[j] by {
                if j < i as int {
                    assert(r@[j] == prev[j]);
                    assert(samples_model(prev)[j] == target[j]);
                } else {
                    assert(r@[j] == s);
                }
            }
            assert(samples_model(r@) =~= target);
        }
        i += 1;
    }
    proof {
        assert(samples_model(r@) =~= tt_item_samples(ls@));
    }
    r
}

fn tt_library_active_samples(ls: &Vec<Library>) -> (r: Vec<Sample>)
    ensures
        samples_model(r@) == tt_active_samples(ls@),
{
    let mut r: Vec<Sample> = Vec::new();
    proof {
        assert(samples_model(r@) =~= Seq::new(
            0,
            |i: int| tt_library_sample(ls@[i], ls@[i].is_active as int),
        ));
    }
    let mut i: usize = 0;
    while i < ls.len()
        invariant
            i <= ls@.len(),
            r@.len() == i,
            samples_model(r@) == Seq::new(
                i as nat,
                |j: int| tt_library_sample(ls@[j], ls@[j].is_active as int),
            ),
        decreases ls@.len() - i,
    {
        let s = tt_library_sample_exec(&ls[i], ls[i].is_active as i128);
        let ghost prev = r@;
        r.push(s);
        proof {
            let target = Seq::new(
                (i + 1) as nat,
                |j: int| tt_library_sample(ls@[j], ls@[j].is_active as int),
            );
            assert forall|j: int| 0 <= j < samples_model(r@).len() implies samples_model(r@)[j]
                == target[j] by {
                if j < i as int {
                    assert(r@[j] == prev[j]);
                    assert(samples_model(prev)[j] == target[j]);
                } else {
                    assert(r@[j] == s);
                }
            }
            assert(samples_model(r@) =~= target);
        }
        i += 1;
    }
    proof {
        assert(samples_model(r@) =~= tt_active_samples(ls@));
    }
    r
}

fn tt_library_parent_samples(ls: &Vec<Library>) -> (r: Vec<Sample>)
    ensures
        samples_model(r@) == tt_parent_samples(ls@),
{
    let mut r: Vec<Sample> = Vec::new();
    proof {
        assert(samples_model(r@) =~= tt_parent_samples(ls@.take(0)));
    }
    let mut i: usize = 0;
    while i < ls.len()
        invariant
            i <= ls@.len(),
            samples_model(r@) == tt_parent_samples(ls@.take(i as int)),
        decreases ls@.len() - i,
    {
        proof {
            assert(ls@.take(i + 1).drop_last() =~= ls@.take(i as int));
            assert(ls@.take(i + 1).last() == ls@[i as int]);
        }
        match &ls[i].parent_count {
            Some(c) => {
                let s = tt_library_sample_exec(&ls[i], parse_count(c.as_str()) as i128);
                let ghost prev = r@;
                r.push(s);
                proof {
                    assert(samples_model(r@) =~= samples_model(prev).push(s.model()));
                    assert(samples_model(r@) =~= tt_parent_samples(ls@.take(i + 1)));
                }
            },
            None => {
                proof {
                    assert(samples_model(r@) =~= tt_parent_samples(ls@.take(i + 1)));
                }
            },
        }
        i += 1;
    }
    proof {
        assert(ls@.take(ls@.len() as int) =~= ls@);
    }
    r
}

fn tt_library_child_samples(ls: &Vec<Library>) -> (r: Vec<Sample>)
    ensures
        samples_model(r@) == tt_child_samples(ls@),
{
    let mut r: Vec<Sample> = Vec::new();
    proof {
        assert(samples_model(r@) =~= tt_child_samples(ls@.take(0)));
    }
    let mut i: usize = 0;
    while i < ls.len()
        invariant
            i <= ls@.len(),
            samples_model(r@) == tt_child_samples(ls@.take(i as int)),
        decreases ls@.len() - i,
    {
        proof {
            assert(ls@.take(i + 1).drop_last() =~= ls@.take(i as int));
            assert(ls@.take(i + 1).last() == ls@[i as int]);
        }
        match &ls[i].child_count {
            Some(c) => {
                let s = tt_library_sample_exec(&ls[i], parse_count(c.as_str()) as i128);
                let ghost prev = r@;
                r.push(s);
                proof {
                    assert(samples_model(r@) =~= samples_model(prev).push(s.model()));
                    assert(samples_model(r@) =~= tt_child_samples(ls@.take(i + 1)));
                }
            },
            None => {
                proof {
                    assert(samples_model(r@) =~= tt_child_samples(ls@.take(i + 1)));
                }
            },
        }
        i += 1;
    }
    proof {
        assert(ls@.take(ls@.len() as int) =~= ls@);
    }
    r
}

/// The four Tautulli library families of one result: item counts and
/// the active flag for every section, parent and child counts for the
/// sections that report them.
pub open spec fn spec_tautulli_library_families(ls: Seq<Library>) -> Seq<GFamily> {
    seq![
        GFamily {
            name: "tautulli_library_item_count"@,
            help: "Tautulli library item count"@,
            samples: tt_item_samples(ls),
        },
        GFamily {
            name: "tautulli_library_parent_count"@,
            help: "Tautulli library parent count"@,
            samples: tt_parent_samples(ls),
        },
        GFamily {
            name: "tautulli_library_child_count"@,
            help: "Tautulli library child count"@,
            samples: tt_child_samples(ls),
        },
        GFamily {
            name: "tautulli_library_active"@,
            help: "Tautulli library is active"@,
            samples: tt_active_samples(ls),
        },
    ]
}

/// Registers one Tautulli library result.
pub fn render_tautulli_library(acc: &mut Vec<MetricFamily>, result: &TautulliLibraryResult)
    ensures
        models(final(acc)@) == spec_merge_all(
            models(old(acc)@),
            spec_tautulli_library_families(result.libraries@),
        ),
{
    let ghost fams = spec_tautulli_library_families(result.libraries@);
    let ls = &result.libraries;
    let mut fs: Vec<MetricFamily> = Vec::new();
    fs.push(
        family(
            String::from_str("tautulli_library_item_count"),
            "Tautulli library item count",
            tt_library_item_samples(ls),
        ),
    );
    fs.push(
        family(
            String::from_str("tautulli_library_parent_count"),
            "Tautulli library parent count",
            tt_library_parent_samples(ls),
        ),
    );
    fs.push(
        family(
            String::from_str("tautulli_library_child_count"),
            "Tautulli library child count",
            tt_library_child_samples(ls),
        ),
    );
    fs.push(
        family(
            String::from_str("tautulli_library_active"),
            "Tautulli library is active",
            tt_library_active_samples(ls),
        ),
    );
    proof {
        assert(models(fs@) =~= fams);
    }
    crate::prometheus::add_families(acc, fs);
}

/// One per-user watch series of the last day.
pub open spec fn tt_watch_sample(w: UserWatch) -> GSample {
    GSample {
        labels: seq![GLabel { key: "user"@, value: w.user@ }],
        value: w.count as int,
    }
}

fn tt_watch_samples(ws: &Vec<UserWatch>) -> (r: Vec<Sample>)
    ensures
        samples_model(r@) == Seq::new(ws@.len(), |i: int| tt_watch_sample(ws@[i])),
{
    let mut r: Vec<Sample> = Vec::new();
    proof {
        assert(samples_model(r@) =~= Seq::new(0, |i: int| tt_watch_sample(ws@[i])));
    }
    let mut i: usize = 0;
    while i < ws.len()
        invariant
            i <= ws@.len(),
            r@.len() == i,
            samples_model(r@) == Seq::new(i as nat, |j: int| tt_watch_sample(ws@[j])),
        decreases ws@.len() - i,
    {
        let w = &ws[i];
        let mut labels: Vec<Label> = Vec::new();
        labels.push(label("user", w.user.clone()));
        let s = Sample { labels, value: w.count as i128 };
        proof {
            assert(s.model().labels =~= tt_watch_sample(ws@[i as int]).labels);
            assert(s.model() =~= tt_watch_sample(ws@[i as int]));
        }
        let ghost prev = r@;
        r.push(s);
        proof {
            let target = Seq::new((i + 1) as nat, |j: int| tt_watch_sample(ws@[j]));
            assert forall|j: int| 0 <= j < samples_model(r@).len() implies samples_model(r@)[j]
                == target[j] by {
                if j < i as int {
                    assert(r@[j] == prev[j]);
                    assert(samples_model(prev)[j] == target[j]);
                } else {
                    assert(r@[j] == s);
                }
            }
            assert(samples_model(r@) =~= target);
        }
        i += 1;
    }
    proof {
        assert(samples_model(r@) =~= Seq::new(ws@.len(), |j: int| tt_watch_sample(ws@[j])));
    }
    r
}

/// The three Tautulli history families of one result: the all-time
/// play count, the plays of the last day, and the per-user watch
/// tallies of the last day.
pub open spec fn spec_tautulli_history_families(
    total_plays: int,
    plays_last_day: int,
    watches: Seq<UserWatch>,
) -> Seq<GFamily> {
    seq![
        GFamily {
            name: "tautulli_history_total_plays"@,
            help: "Tautulli all-time play count"@,
            samples: seq![GSample { labels: Seq::empty(), value: total_plays }],
        },
        GFamily {
            name: "tautulli_history_plays_24h"@,
            help: "Tautulli plays in the last day"@,
            samples: seq![GSample { labels: Seq::empty(), value: plays_last_day }],
        },
        GFamily {
            name: "tautulli_history_user_watches_24h"@,
            help: "Tautulli per-user watches in the last day"@,
            samples: Seq::new(watches.len(), |i: int| tt_watch_sample(watches[i])),
        },
    ]
}

/// Registers one Tautulli history result.
pub fn render_tautulli_history(acc: &mut Vec<MetricFamily>, result: &TautulliHistoryResult)
    ensures
        models(final(acc)@) == spec_merge_all(
            models(old(acc)@),
            spec_tautulli_history_families(
                result.total_plays as int,
                result.plays_last_day as int,
                result.user_watches@,
            ),
        ),
{
    let ghost fams = spec_tautulli_history_families(
        result.total_plays as int,
        result.plays_last_day as int,
        result.user_watches@,
    );
    let mut fs: Vec<MetricFamily> = Vec::new();
    fs.push(
        scalar_family(
            String::from_str("tautulli_history_total_plays"),
            "Tautulli all-time play count",
            result.total_plays as i128,
        ),
    );
    fs.push(
        scalar_family(
            String::from_str("tautulli_history_plays_24h"),
            "Tautulli plays in the last day",
            result.plays_last_day as i128,
        ),
    );
    fs.push(
        family(
            String::from_str("tautulli_history_user_watches_24h"),
            "Tautulli per-user watches in the last day",
            tt_watch_samples(&result.user_watches),
        ),
    );
    proof {
        assert(models(fs@) =~= fams);
    }
    crate::prometheus::add_families(acc, fs);
}

/// Whether a name already stands in a list of names.
pub open spec fn seq_has_str(names: Seq<Seq<char>>, x: Seq<char>) -> bool {
    exists|i: int| 0 <= i < names.len() && names[i] == x
}

/// The ghost image of a list of user names.
pub open spec fn strings_model(v: Seq<String>) -> Seq<Seq<char>> {
    v.map_values(|s: String| s@)
}

/// The users seen in sessions, in order of first appearance, each
/// once.
pub open spec fn spec_active_users(sessions: Seq<Session>) -> Seq<Seq<char>>
    decreases sessions.len(),
{
    if sessions.len() == 0 {
        Seq::empty()
    } else {
        let rest = spec_active_users(sessions.drop_last());
        if seq_has_str(rest, sessions.last().user@) {
            rest
        } else {
            rest.push(sessions.last().user@)
        }
    }
}

/// Whether some session belongs to a user name.
pub open spec fn spec_session_user_exists(sessions: Seq<Session>, name: Seq<char>) -> bool {
    exists|i: int| 0 <= i < sessions.len() && sessions[i].user@ == name
}

/// The known users with no session, in order.
pub open spec fn spec_inactive_users(users: Seq<User>, sessions: Seq<Session>) -> Seq<Seq<char>>
    decreases users.len(),
{
    if users.len() == 0 {
        Seq::empty()
    } else {
        let rest = spec_inactive_users(users.drop_last(), sessions);
        if spec_session_user_exists(sessions, users.last().name@) {
            rest
        } else {
            rest.push(users.last().name@)
        }
    }
}

fn vec_has_name(v: &Vec<String>, x: &str) -> (r: bool)
    ensures
        r == seq_has_str(strings_model(v@), x@),
{
    let mut i: usize = 0;
    while i < v.len()
        invariant
            i <= v@.len(),
            forall|j: int| 0 <= j < i ==> (#[trigger] v@[j])@ != x@,
        decreases v@.len() - i,
    {
        if str_eq(v[i].as_str(), x) {
            proof {
                assert(strings_model(v@)[i as int] == x@);
            }
            return true;
        }
        i += 1;
    }
    proof {
        assert forall|j: int| 0 <= j < strings_model(v@).len() implies strings_model(v@)[j] != x@
        by {
            assert(v@[j]@ != x@);
        }
    }
    false
}

fn any_session_user(sessions: &Vec<Session>, name: &str) -> (r: bool)
    ensures
        r == spec_session_user_exists(sessions@, name@),
{
    let mut i: usize = 0;
    while i < sessions.len()
        invariant
            i <= sessions@.len(),
            forall|j: int| 0 <= j < i ==> (#[trigger] sessions@[j]).user@ != name@,
        decreases sessions@.len() - i,
    {
        if str_eq(sessions[i].user.as_str(), name) {
            return true;
        }
        i += 1;
    }
    false
}

/// Collects the distinct session users, in order of first appearance.
fn active_users(sessions: &Vec<Session>) -> (r: Vec<String>)
    ensures
        strings_model(r@) == spec_active_users(sessions@),
{
    let mut r: Vec<String> = Vec::new();
    proof {
        assert(strings_model(r@) =~= spec_active_users(sessions@.take(0)));
    }
    let mut i: usize = 0;
    while i < sessions.len()
        invariant
            i <= sessions@.len(),
            strings_model(r@) == spec_active_users(sessions@.take(i as int)),
        decreases sessions@.len() - i,
    {
        proof {
            assert(sessions@.take(i + 1).drop_last() =~= sessions@.take(i as int));
            assert(sessions@.take(i + 1).last() == sessions@[i as int]);
        }
        if !vec_has_name(&r, sessions[i].user.as_str()) {
            let ghost prev = r@;
            r.push(sessions[i].user.clone());
            proof {
                assert(strings_model(r@) =~= strings_model(prev).push(sessions@[i as int].user@));
            }
        }
        proof {
            assert(strings_model(r@) =~= spec_active_users(sessions@.take(i + 1)));
        }
        i += 1;
    }
    proof {
        assert(sessions@.take(sessions@.len() as int) =~= sessions@);
    }
    r
}

/// Collects the known users that no session belongs to, in order.
fn inactive_users(users: &Vec<User>, sessions: &Vec<Session>) -> (r: Vec<String>)
    ensures
        strings_model(r@) == spec_inactive_users(users@, sessions@),
{
    let mut r: Vec<String> = Vec::new();
    proof {
        assert(strings_model(r@) =~= spec_inactive_users(users@.take(0), sessions@));
    }
    let mut i: usize = 0;
    while i < users.len()
        invariant
            i <= users@.len(),
            strings_model(r@) == spec_inactive_users(users@.take(i as int), sessions@),
        decreases users@.len() - i,
    {
        proof {
            assert(users@.take(i + 1).drop_last() =~= users@.take(i as int));
            assert(users@.take(i + 1).last() == users@[i as int]);
        }
        if !any_session_user(sessions, users[i].name.as_str()) {
            let ghost prev = r@;
            r.push(users[i].name.clone());
            proof {
                assert(strings_model(r@) =~= strings_model(prev).push(users@[i as int].name@));
            }
        }
        proof {
            assert(strings_model(r@) =~= spec_inactive_users(users@.take(i + 1), sessions@));
        }
        i += 1;
    }
    proof {
        assert(users@.take(users@.len() as int) =~= users@);
    }
    r
}

/// One media-server session-info series, always valued 1.
pub open spec fn ms_session_info_sample(name: Seq<char>, s: Session) -> GSample {
    GSample {
        labels: seq![
            GLabel { key: "name"@, value: name },
            GLabel { key: "user"@, value: s.user@ },
            GLabel { key: "title"@, value: s.title@ },
            GLabel { key: "state"@, value: s.state@ },
            GLabel { key: "platform"@, value: s.platform@ },
            GLabel { key: "decision"@, value: s.stream_decision.spec_label() },
            GLabel { key: "media_type"@, value: s.media_type@ },
            GLabel { key: "quality"@, value: s.quality@ },
        ],
        value: 1,
    }
}

/// One media-server progress series.
pub open spec fn ms_session_progress_sample(name: Seq<char>, s: Session) -> GSample {
    GSample {
        labels: seq![
            GLabel { key: "name"@, value: name },
            GLabel { key: "user"@, value: s.user@ },
            GLabel { key: "title"@, value: s.title@ },
        ],
        value: s.progress as int,
    }
}

/// One media-server location series, always valued 1.
pub open spec fn ms_session_location_sample(name: Seq<char>, s: Session) -> GSample {
    GSample {
        labels: seq![
            GLabel { key: "name"@, value: name },
            GLabel { key: "user"@, value: s.user@ },
            GLabel { key: "title"@, value: s.title@ },
            GLabel { key: "city"@, value: s.location.city@ },
            GLabel { key: "country"@, value: s.location.country@ },
            GLabel { key: "latitude"@, value: s.location.latitude@ },
            GLabel { key: "longitude"@, value: s.location.longitude@ },
        ],
        value: 1,
    }
}

/// One user-active series: 1 for a user with a session, 0 for a known
/// user without one.
pub open spec fn ms_user_active_sample(name: Seq<char>, user: Seq<char>, active: bool) -> GSample {
    GSample {
        labels: seq![
            GLabel { key: "name"@, value: name },
            GLabel { key: "user"@, value: user },
        ],
        value: gauge_bool(active),
    }
}

fn ms_info_samples(name: &String, sessions: &Vec<Session>) -> (r: Vec<Sample>)
    ensures
        samples_model(r@) == Seq::new(
            sessions@.len(),
            |i: int| ms_session_info_sample(name@, sessions@[i]),
        ),
{
    let mut r: Vec<Sample> = Vec::new();
    proof {
        assert(samples_model(r@) =~= Seq::new(
            0,
            |i: int| ms_session_info_sample(name@, sessions@[i]),
        ));
    }
    let mut i: usize = 0;
    while i < sessions.len()
        invariant
            i <= sessions@.len(),
            r@.len() == i,
            samples_model(r@) == Seq::new(
                i as nat,
                |j: int| ms_session_info_sample(name@, sessions@[j]),
            ),
        decreases sessions@.len() - i,
    {
        let q = &sessions[i];
        let mut labels: Vec<Label> = Vec::new();
        labels.push(label("name", name.clone()));
        labels.push(label("user", q.user.clone()));
        labels.push(label("title", q.title.clone()));
        labels.push(label("state", q.state.clone()));
        labels.push(label("platform", q.platform.clone()));
        labels.push(label("decision", String::from_str(q.stream_decision.label())));
        labels.push(label("media_type", q.media_type.clone()));
        labels.push(label("quality", q.quality.clone()));
        let s = Sample { labels, value: 1 };
        proof {
            assert(s.model().labels =~= ms_session_info_sample(name@, sessions@[i as int]).labels);
            assert(s.model() =~= ms_session_info_sample(name@, sessions@[i as int]));
        }
        let ghost prev = r@;
        r.push(s);
        proof {
            let target = Seq::new(
                (i + 1) as nat,
                |j: int| ms_session_info_sample(name@, sessions@[j]),
            );
            assert forall|j: int| 0 <= j < samples_model(r@).len() implies samples_model(r@)[j]
                == target[j] by {
                if j < i as int {
                    assert(r@[j] == prev[j]);
                    assert(samples_model(prev)[j] == target[j]);
                } else {
                    assert(r@[j] == s);
                }
            }
            assert(samples_model(r@) =~= target);
        }
        i += 1;
    }
    proof {
        assert(samples_model(r@) =~= Seq::new(
            sessions@.len(),
            |j: int| ms_session_info_sample(name@, sessions@[j]),
        ));
    }
    r
}

fn ms_progress_samples(name: &String, sessions: &Vec<Session>) -> (r: Vec<Sample>)
    ensures
        samples_model(r@) == Seq::new(
            sessions@.len(),
            |i: int| ms_session_progress_sample(name@, sessions@[i]),
        ),
{
    let mut r: Vec<Sample> = Vec::new();
    proof {
        assert(samples_model(r@) =~= Seq::new(
            0,
            |i: int| ms_session_progress_sample(name@, sessions@[i]),
        ));
    }
    let mut i: usize = 0;
    while i < sessions.len()
        invariant
            i <= sessions@.len(),
            r@.len() == i,
            samples_model(r@) == Seq::new(
                i as nat,
                |j: int| ms_session_progress_sample(name@, sessions@[j]),
            ),
        decreases sessions@.len() - i,
    {
        let q = &sessions[i];
        let mut labels: Vec<Label> = Vec::new();
        labels.push(label("name", name.clone()));
        labels.push(label("user", q.user.clone()));
        labels.push(label("title", q.title.clone()));
        let s = Sample { labels, value: q.progress as i128 };
        proof {
            assert(s.model().labels =~= ms_session_progress_sample(
                name@,
                sessions@[i as int],
            ).labels);
            assert(s.model() =~= ms_session_progress_sample(name@, sessions@[i as int]));
        }
        let ghost prev = r@;
        r.push(s);
        proof {
            let target = Seq::new(
                (i + 1) as nat,
                |j: int| ms_session_progress_sample(name@, sessions@[j]),
            );
            assert forall|j: int| 0 <= j < samples_model(r@).len() implies samples_model(r@)[j]
                == target[j] by {
                if j < i as int {
                    assert(r@[j] == prev[j]);
                    assert(samples_model(prev)[j] == target[j]);
                } else {
                    assert(r@[j] == s);
                }
            }
            assert(samples_model(r@) =~= target);
        }
        i += 1;
    }
    proof {
        assert(samples_model(r@) =~= Seq::new(
            sessions@.len(),
            |j: int| ms_session_progress_sample(name@, sessions@[j]),
        ));
    }
    r
}

fn ms_location_samples(name: &String, sessions: &Vec<Session>) -> (r: Vec<Sample>)
    ensures
        samples_model(r@) == Seq::new(
            sessions@.len(),
            |i: int| ms_session_location_sample(name@, sessions@[i]),
        ),
{
    let mut r: Vec<Sample> = Vec::new();
    proof {
        assert(samples_model(r@) =~= Seq::new(
            0,
            |i: int| ms_session_location_sample(name@, sessions@[i]),
        ));
    }
    let mut i: usize = 0;
    while i < sessions.len()
        invariant
            i <= sessions@.len(),
            r@.len() == i,
            samples_model(r@) == Seq::new(
                i as nat,
                |j: int| ms_session_location_sample(name@, sessions@[j]),
            ),
        decreases sessions@.len() - i,
    {
        let q = &sessions[i];
        let mut labels: Vec<Label> = Vec::new();
        labels.push(label("name", name.clone()));
        labels.push(label("user", q.user.clone()));
        labels.push(label("title", q.title.clone()));
        labels.push(label("city", q.location.city.clone()));
        labels.push(label("country", q.location.country.clone()));
        labels.push(label("latitude", q.location.latitude.clone()));
        labels.push(label("longitude", q.location.longitude.clone()));
        let s = Sample { labels, value: 1 };
        proof {
            assert(s.model().labels =~= ms_session_location_sample(
                name@,
                sessions@[i as int],
            ).labels);
            assert(s.model() =~= ms_session_location_sample(name@, sessions@[i as int]));
        }
        let ghost prev = r@;
        r.push(s);
        proof {
            let target = Seq::new(
                (i + 1) as nat,
                |j: int| ms_session_location_sample(name@, sessions@[j]),
            );
            assert forall|j: int| 0 <= j < samples_model(r@).len() implies samples_model(r@)[j]
                == target[j] by {
                if j < i as int {
                    assert(r@[j] == prev[j]);
                    assert(samples_model(prev)[j] == target[j]);
                } else {
                    assert(r@[j] == s);
                }
            }
            assert(samples_model(r@) =~= target);
        }
        i += 1;
    }
    proof {
        assert(samples_model(r@) =~= Seq::new(
            sessions@.len(),
            |j: int| ms_session_location_sample(name@, sessions@[j]),
        ));
    }
    r
}

/// The user-active series: the active users at 1, then the inactive
/// known users at 0.
pub open spec fn ms_user_active_samples(
    name: Seq<char>,
    active: Seq<Seq<char>>,
    inactive: Seq<Seq<char>>,
) -> Seq<GSample> {
    Seq::new(active.len(), |i: int| ms_user_active_sample(name, active[i], true)) + Seq::new(
        inactive.len(),
        |i: int| ms_user_active_sample(name, inactive[i], false),
    )
}

fn ms_user_active_samples_exec(name: &String, active: &Vec<String>, inactive: &Vec<String>) -> (r:
    Vec<Sample>)
    ensures
        samples_model(r@) == ms_user_active_samples(
            name@,
            strings_model(active@),
            strings_model(inactive@),
        ),
{
    let mut r: Vec<Sample> = Vec::new();
    proof {
        assert(samples_model(r@) =~= Seq::new(
            0,
            |i: int| ms_user_active_sample(name@, strings_model(active@)[i], true),
        ));
    }
    let mut i: usize = 0;
    while i < active.len()
        invariant
            i <= active@.len(),
            r@.len() == i,
            samples_model(r@) == Seq::new(
                i as nat,
                |j: int| ms_user_active_sample(name@, strings_model(active@)[j], true),
            ),
        decreases active@.len() - i,
    {
        let mut labels: Vec<Label> = Vec::new();
        labels.push(label("name", name.clone()));
        labels.push(label("user", active[i].clone()));
        let s = Sample { labels, value: 1 };
        proof {
            assert(s.model().labels =~= ms_user_active_sample(
                name@,
                strings_model(active@)[i as int],
                true,
            ).labels);
            assert(s.model() =~= ms_user_active_sample(
                name@,
                strings_model(active@)[i as int],
                true,
            ));
        }
        let ghost prev = r@;
        r.push(s);
        proof {
            let target = Seq::new(
                (i + 1) as nat,
                |j: int| ms_user_active_sample(name@, strings_model(active@)[j], true),
            );
            assert forall|j: int| 0 <= j < samples_model(r@).len() implies samples_model(r@)[j]
                == target[j] by {
                if j < i as int {
                    assert(r@[j] == prev[j]);
                    assert(samples_model(prev)[j] == target[j]);
                } else {
                    assert(r@[j] == s);
                }
            }
            assert(samples_model(r@) =~= target);
        }
        i += 1;
    }
    let ghost active_part = samples_model(r@);
    proof {
        assert(active_part =~= Seq::new(
            active@.len(),
            |j: int| ms_user_active_sample(name@, strings_model(active@)[j], true),
        ));
    }
    let mut k: usize = 0;
    while k < inactive.len()
        invariant
            k <= inactive@.len(),
            r@.len() == active@.len() + k,
            samples_model(r@) == active_part + Seq::new(
                k as nat,
                |j: int| ms_user_active_sample(name@, strings_model(inactive@)[j], false),
            ),
            active_part.len() == active@.len(),
        decreases inactive@.len() - k,
    {
        let mut labels: Vec<Label> = Vec::new();
        labels.push(label("name", name.clone()));
        labels.push(label("user", inactive[k].clone()));
        let s = Sample { labels, value: 0 };
        proof {
            assert(s.model().labels =~= ms_user_active_sample(
                name@,
                strings_model(inactive@)[k as int],
                false,
            ).labels);
            assert(s.model() =~= ms_user_active_sample(
                name@,
                strings_model(inactive@)[k as int],
                false,
            ));
        }
        let ghost prev = r@;
        r.push(s);
        proof {
            let target = active_part + Seq::new(
                (k + 1) as nat,
                |j: int| ms_user_active_sample(name@, strings_model(inactive@)[j], false),
            );
            assert forall|j: int| 0 <= j < samples_model(r@).len() implies samples_model(r@)[j]
                == target[j] by {
                if j < prev.len() {
                    assert(r@[j] == prev[j]);
                    assert(samples_model(prev)[j] == target[j]);
                } else {
                    assert(r@[j] == s);
                }
            }
            assert(samples_model(r@) =~= target);
        }
        k += 1;
    }
    proof {
        assert(samples_model(r@) =~= ms_user_active_samples(
            name@,
            strings_model(active@),
            strings_model(inactive@),
        ));
    }
    r
}

/// The exact sum of the LAN sessions' bandwidth.
pub open spec fn spec_lan_sum(sessions: Seq<Session>) -> int
    decreases sessions.len(),
{
    if sessions.len() == 0 {
        0
    } else {
        spec_lan_sum(sessions.drop_last()) + (match sessions.last().bandwidth.location {
            BandwidthLocation::Lan => sessions.last().bandwidth.bandwidth as int,
            _ => 0,
        })
    }
}

/// The exact sum of the WAN sessions' bandwidth.
pub open spec fn spec_wan_sum(sessions: Seq<Session>) -> int
    decreases sessions.len(),
{
    if sessions.len() == 0 {
        0
    } else {
        spec_wan_sum(sessions.drop_last()) + (match sessions.last().bandwidth.location {
            BandwidthLocation::Wan => sessions.last().bandwidth.bandwidth as int,
            _ => 0,
        })
    }
}

/// The exact sum over every session whose bandwidth location is
/// known.
pub open spec fn spec_known_sum(sessions: Seq<Session>) -> int
    decreases sessions.len(),
{
    if sessions.len() == 0 {
        0
    } else {
        spec_known_sum(sessions.drop_last()) + (match sessions.last().bandwidth.location {
            BandwidthLocation::Unknown => 0,
            _ => sessions.last().bandwidth.bandwidth as int,
        })
    }
}

/// The LAN and WAN sums partition the bandwidth of every session
/// whose location is known.
pub proof fn lemma_bandwidth_partition(sessions: Seq<Session>)
    ensures
        spec_lan_sum(sessions) + spec_wan_sum(sessions) == spec_known_sum(sessions),
    decreases sessions.len(),
{
    if sessions.len() > 0 {
        lemma_bandwidth_partition(sessions.drop_last());
    }
}

/// Sums the per-session bandwidth by location, after the whole
/// session list is known.
fn bandwidth_sums(sessions: &Vec<Session>) -> (r: (i128, i128))
    ensures
        r.0 == spec_lan_sum(sessions@),
        r.1 == spec_wan_sum(sessions@),
{
    let mut lan: i128 = 0;
    let mut wan: i128 = 0;
    let mut i: usize = 0;
    while i < sessions.len()
        invariant
            i <= sessions@.len(),
            lan == spec_lan_sum(sessions@.take(i as int)),
            wan == spec_wan_sum(sessions@.take(i as int)),
            -9223372036854775808 * (i as int) <= lan <= 9223372036854775808 * (i as int),
            -9223372036854775808 * (i as int) <= wan <= 9223372036854775808 * (i as int),
        decreases sessions@.len() - i,
    {
        proof {
            assert(sessions@.take(i + 1).drop_last() =~= sessions@.take(i as int));
            assert(sessions@.take(i + 1).last() == sessions@[i as int]);
        }
        match sessions[i].bandwidth.location {
            BandwidthLocation::Lan => {
                lan = lan + sessions[i].bandwidth.bandwidth as i128;
            },
            BandwidthLocation::Wan => {
                wan = wan + sessions[i].bandwidth.bandwidth as i128;
            },
            BandwidthLocation::Unknown => {},
        }
        i += 1;
    }
    proof {
        assert(sessions@.take(sessions@.len() as int) =~= sessions@);
    }
    (lan, wan)
}

/// One bandwidth series: the instance and the side of the link.
pub open spec fn ms_bandwidth_sample(name: Seq<char>, side: Seq<char>, value: int) -> GSample {
    GSample {
        labels: seq![
            GLabel { key: "name"@, value: name },
            GLabel { key: "location"@, value: side },
        ],
        value: value,
    }
}

fn ms_bandwidth_sample_exec(name: &String, side: &str, value: i128) -> (s: Sample)
    ensures
        s.model() == ms_bandwidth_sample(name@, side@, value as int),
{
    let mut labels: Vec<Label> = Vec::new();
    labels.push(label("name", name.clone()));
    labels.push(label("location", String::from_str(side)));
    let s = Sample { labels, value };
    proof {
        assert(s.model().labels =~= ms_bandwidth_sample(name@, side@, value as int).labels);
        assert(s.model() =~= ms_bandwidth_sample(name@, side@, value as int));
    }
    s
}

/// The session families of one media-server result: the session
/// count, one info, progress and location series per session, the
/// user-active complement over the known users, and — for Plex alone —
/// the LAN/WAN bandwidth partition, published only after the whole
/// session list is aggregated. The session count always equals the
/// number of info series, and the bandwidth sums partition the known
/// session bandwidth.
pub open spec fn spec_session_families(
    kind: Seq<char>,
    name: Seq<char>,
    sessions: Seq<Session>,
    users: Seq<User>,
) -> Seq<GFamily> {
    let base = seq![
        GFamily {
            name: kind + "_session_count"@,
            help: "Session count"@,
            samples: seq![
                GSample {
                    labels: seq![GLabel { key: "name"@, value: name }],
                    value: sessions.len() as int,
                },
            ],
        },
        GFamily {
            name: kind + "_session_info"@,
            help: "Session status"@,
            samples: Seq::new(sessions.len(), |i: int| ms_session_info_sample(name, sessions[i])),
        },
        GFamily {
            name: kind + "_session_progress"@,
            help: "Session progress"@,
            samples: Seq::new(
                sessions.len(),
                |i: int| ms_session_progress_sample(name, sessions[i]),
            ),
        },
        GFamily {
            name: kind + "_user_active"@,
            help: "User has an active session"@,
            samples: ms_user_active_samples(
                name,
                spec_active_users(sessions),
                spec_inactive_users(users, sessions),
            ),
        },
        GFamily {
            name: kind + "_session_location"@,
            help: "Session location"@,
            samples: Seq::new(
                sessions.len(),
                |i: int| ms_session_location_sample(name, sessions[i]),
            ),
        },
    ];
    if kind == "plex"@ {
        base.push(
            GFamily {
                name: kind + "_session_bandwidth"@,
                help: "Session bandwidth by location"@,
                samples: seq![
                    ms_bandwidth_sample(name, "LAN"@, spec_lan_sum(sessions)),
                    ms_bandwidth_sample(name, "WAN"@, spec_wan_sum(sessions)),
                ],
            },
        )
    } else {
        base
    }
}

/// Registers one media-server session result.
pub fn render_sessions(acc: &mut Vec<MetricFamily>, result: &SessionResult)
    ensures
        models(final(acc)@) == spec_merge_all(
            models(old(acc)@),
            spec_session_families(result.kind@, result.name@, result.sessions@, result.users@),
        ),
{
    let ghost fams = spec_session_families(
        result.kind@,
        result.name@,
        result.sessions@,
        result.users@,
    );
    let kind = &result.kind;
    let name = &result.name;
    let sessions = &result.sessions;
    let mut fs: Vec<MetricFamily> = Vec::new();
    fs.push(
        keyed_family(
            prefixed_name(kind, "_session_count"),
            "Session count",
            "name",
            name.clone(),
            sessions.len() as i128,
        ),
    );
    fs.push(
        family(prefixed_name(kind, "_session_info"), "Session status", ms_info_samples(name, sessions)),
    );
    fs.push(
        family(
            prefixed_name(kind, "_session_progress"),
            "Session progress",
            ms_progress_samples(name, sessions),
        ),
    );
    let active = active_users(sessions);
    let inactive = inactive_users(&result.users, sessions);
    fs.push(
        family(
            prefixed_name(kind, "_user_active"),
            "User has an active session",
            ms_user_active_samples_exec(name, &active, &inactive),
        ),
    );
    fs.push(
        family(
            prefixed_name(kind, "_session_location"),
            "Session location",
            ms_location_samples(name, sessions),
        ),
    );
    if str_eq(kind.as_str(), "plex") {
        let (lan, wan) = bandwidth_sums(sessions);
        let mut samples: Vec<Sample> = Vec::new();
        samples.push(ms_bandwidth_sample_exec(name, "LAN", lan));
        samples.push(ms_bandwidth_sample_exec(name, "WAN", wan));
        proof {
            assert(samples_model(samples@) =~= seq![
                ms_bandwidth_sample(name@, "LAN"@, spec_lan_sum(sessions@)),
                ms_bandwidth_sample(name@, "WAN"@, spec_wan_sum(sessions@)),
            ]);
        }
        fs.push(
            family(
                prefixed_name(kind, "_session_bandwidth"),
                "Session bandwidth by location",
                samples,
            ),
        );
    }
    proof {
        assert(models(fs@) =~= fams);
    }
    crate::prometheus::add_families(acc, fs);
}

/// One library series: the instance, the library and its kind.
pub open spec fn ms_library_sample(name: Seq<char>, l: LibraryCount, value: int) -> GSample {
    GSample {
        labels: seq![
            GLabel { key: "name"@, value: name },
            GLabel { key: "library_name"@, value: l.name@ },
            GLabel { key: "library_type"@, value: l.media_type.spec_label() },
        ],
        value: value,
    }
}

fn ms_library_sample_exec(name: &String, l: &LibraryCount, value: i128) -> (s: Sample)
    ensures
        s.model() == ms_library_sample(name@, *l, value as int),
{
    let mut labels: Vec<Label> = Vec::new();
    labels.push(label("name", name.clone()));
    labels.push(label("library_name", l.name.clone()));
    labels.push(label("library_type", l.media_type.to_string()));
    let s = Sample { labels, value };
    proof {
        assert(s.model().labels =~= ms_library_sample(name@, *l, value as int).labels);
        assert(s.model() =~= ms_library_sample(name@, *l, value as int));
    }
    s
}

/// The item-count series of every library.
pub open spec fn ms_library_count_samples(name: Seq<char>, ls: Seq<LibraryCount>) -> Seq<GSample> {
    Seq::new(ls.len(), |i: int| ms_library_sample(name, ls[i], ls[i].count as int))
}

/// The child-count series of the libraries that report one.
pub open spec fn ms_library_child_samples(name: Seq<char>, ls: Seq<LibraryCount>) -> Seq<GSample>
    decreases ls.len(),
{
    if ls.len() == 0 {
        Seq::empty()
    } else {
        ms_library_child_samples(name, ls.drop_last()) + (match ls.last().child_count {
            Some(c) => seq![ms_library_sample(name, ls.last(), c as int)],
            None => Seq::<GSample>::empty(),
        })
    }
}

/// The grand-child-count series of the libraries that report one.
pub open spec fn ms_library_grandchild_samples(name: Seq<char>, ls: Seq<LibraryCount>) -> Seq<
    GSample,
>
    decreases ls.len(),
{
    if ls.len() == 0 {
        Seq::empty()
    } else {
        ms_library_grandchild_samples(name, ls.drop_last()) + (match ls.last().grand_child_count {
            Some(c) => seq![ms_library_sample(name, ls.last(), c as int)],
            None => Seq::<GSample>::empty(),
        })
    }
}

fn ms_library_count_samples_exec(name: &String, ls: &Vec<LibraryCount>) -> (r: Vec<Sample>)
    ensures
        samples_model(r@) == ms_library_count_samples(name@, ls@),
{
    let mut r: Vec<Sample> = Vec::new();
    proof {
        assert(samples_model(r@) =~= Seq::new(
            0,
            |i: int| ms_library_sample(name@, ls@[i], ls@[i].count as int),
        ));
    }
    let mut i: usize = 0;
    while i < ls.len()
        invariant
            i <= ls@.len(),
            r@.len() == i,
            samples_model(r@) == Seq::new(
                i as nat,
                |j: int| ms_library_sample(name@, ls@[j], ls@[j].count as int),
            ),
        decreases ls@.len() - i,
    {
        let s = ms_library_sample_exec(name, &ls[i], ls[i].count as i128);
        let ghost prev = r@;
        r.push(s);
        proof {
            let target = Seq::new(
                (i + 1) as nat,
                |j: int| ms_library_sample(name@, ls@[j], ls@[j].count as int),
            );
            assert forall|j: int| 0 <= j < samples_model(r@).len() implies samples_model(r@)[j]
                == target[j] by {
                if j < i as int {
                    assert(r@[j] == prev[j]);
                    assert(samples_model(prev)[j] == target[j]);
                } else {
                    assert(r@[j] == s);
                }
            }
            assert(samples_model(r@) =~= target);
        }
        i += 1;
    }
    proof {
        assert(samples_model(r@) =~= ms_library_count_samples(name@, ls@));
    }
    r
}

fn ms_library_child_samples_exec(name: &String, ls: &Vec<LibraryCount>) -> (r: Vec<Sample>)
    ensures
        samples_model(r@) == ms_library_child_samples(name@, ls@),
{
    let mut r: Vec<Sample> = Vec::new();
    proof {
        assert(samples_model(r@) =~= ms_library_child_samples(name@, ls@.take(0)));
    }
    let mut i: usize = 0;
    while i < ls.len()
        invariant
            i <= ls@.len(),
            samples_model(r@) == ms_library_child_samples(name@, ls@.take(i as int)),
        decreases ls@.len() - i,
    {
        proof {
            assert(ls@.take(i + 1).drop_last() =~= ls@.take(i as int));
            assert(ls@.take(i + 1).last() == ls@[i as int]);
        }
        match ls[i].child_count {
            Some(c) => {
                let s = ms_library_sample_exec(name, &ls[i], c as i128);
                let ghost prev = r@;
                r.push(s);
                proof {
                    assert(samples_model(r@) =~= samples_model(prev).push(s.model()));
                    assert(samples_model(r@) =~= ms_library_child_samples(name@, ls@.take(i + 1)));
                }
            },
            None => {
                proof {
                    assert(samples_model(r@) =~= ms_library_child_samples(name@, ls@.take(i + 1)));
                }
            },
        }
        i += 1;
    }
    proof {
        assert(ls@.take(ls@.len() as int) =~= ls@);
    }
    r
}

fn ms_library_grandchild_samples_exec(name: &String, ls: &Vec<LibraryCount>) -> (r: Vec<Sample>)
    ensures
        samples_model(r@) == ms_library_grandchild_samples(name@, ls@),
{
    let mut r: Vec<Sample> = Vec::new();
    proof {
        assert(samples_model(r@) =~= ms_library_grandchild_samples(name@, ls@.take(0)));
    }
    let mut i: usize = 0;
    while i < ls.len()
        invariant
            i <= ls@.len(),
            samples_model(r@) == ms_library_grandchild_samples(name@, ls@.take(i as int)),
        decreases ls@.len() - i,
    {
        proof {
            assert(ls@.take(i + 1).drop_last() =~= ls@.take(i as int));
            assert(ls@.take(i + 1).last() == ls@[i as int]);
        }
        match ls[i].grand_child_count {
            Some(c) => {
                let s = ms_library_sample_exec(name, &ls[i], c as i128);
                let ghost prev = r@;
                r.push(s);
                proof {
                    assert(samples_model(r@) =~= samples_model(prev).push(s.model()));
                    assert(samples_model(r@) =~= ms_library_grandchild_samples(
                        name@,
                        ls@.take(i + 1),
                    ));
                }
            },
            None => {
                proof {
                    assert(samples_model(r@) =~= ms_library_grandchild_samples(
                        name@,
                        ls@.take(i + 1),
                    ));
                }
            },
        }
        i += 1;
    }
    proof {
        assert(ls@.take(ls@.len() as int) =~= ls@);
    }
    r
}

/// The exact sum of movie-library item counts.
pub open spec fn spec_movie_total(ls: Seq<LibraryCount>) -> int
    decreases ls.len(),
{
    if ls.len() == 0 {
        0
    } else {
        spec_movie_total(ls.drop_last()) + (match ls.last().media_type {
            MediaType::Movie => ls.last().count as int,
            _ => 0,
        })
    }
}

/// The exact sum of show-library item counts.
pub open spec fn spec_show_total(ls: Seq<LibraryCount>) -> int
    decreases ls.len(),
{
    if ls.len() == 0 {
        0
    } else {
        spec_show_total(ls.drop_last()) + (match ls.last().media_type {
            MediaType::Show => ls.last().count as int,
            _ => 0,
        })
    }
}

/// The exact sum of show-library season counts.
pub open spec fn spec_season_total(ls: Seq<LibraryCount>) -> int
    decreases ls.len(),
{
    if ls.len() == 0 {
        0
    } else {
        spec_season_total(ls.drop_last()) + (match ls.last().media_type {
            MediaType::Show => match ls.last().child_count {
                Some(c) => c as int,
                None => 0,
            },
            _ => 0,
        })
    }
}

/// The exact sum of show-library episode counts.
pub open spec fn spec_episode_total(ls: Seq<LibraryCount>) -> int
    decreases ls.len(),
{
    if ls.len() == 0 {
        0
    } else {
        spec_episode_total(ls.drop_last()) + (match ls.last().media_type {
            MediaType::Show => match ls.last().grand_child_count {
                Some(c) => c as int,
                None => 0,
            },
            _ => 0,
        })
    }
}

fn library_totals(ls: &Vec<LibraryCount>) -> (r: (i128, i128, i128, i128))
    ensures
        r.0 == spec_movie_total(ls@),
        r.1 == spec_show_total(ls@),
        r.2 == spec_season_total(ls@),
        r.3 == spec_episode_total(ls@),
{
    let mut movies: i128 = 0;
    let mut shows: i128 = 0;
    let mut seasons: i128 = 0;
    let mut episodes: i128 = 0;
    let mut i: usize = 0;
    while i < ls.len()
        invariant
            i <= ls@.len(),
            movies == spec_movie_total(ls@.take(i as int)),
            shows == spec_show_total(ls@.take(i as int)),
            seasons == spec_season_total(ls@.take(i as int)),
            episodes == spec_episode_total(ls@.take(i as int)),
            -9223372036854775808 * (i as int) <= movies <= 9223372036854775808 * (i as int),
            -9223372036854775808 * (i as int) <= shows <= 9223372036854775808 * (i as int),
            -9223372036854775808 * (i as int) <= seasons <= 9223372036854775808 * (i as int),
            -9223372036854775808 * (i as int) <= episodes <= 9223372036854775808 * (i as int),
        decreases ls@.len() - i,
    {
        proof {
            assert(ls@.take(i + 1).drop_last() =~= ls@.take(i as int));
            assert(ls@.take(i + 1).last() == ls@[i as int]);
        }
        let l = &ls[i];
        match l.media_type {
            MediaType::Movie => {
                movies = movies + l.count as i128;
            },
            MediaType::Show => {
                shows = shows + l.count as i128;
                seasons = seasons + (match l.child_count {
                    Some(c) => c,
                    None => 0,
                }) as i128;
                episodes = episodes + (match l.grand_child_count {
                    Some(c) => c,
                    None => 0,
                }) as i128;
            },
            _ => {},
        }
        i += 1;
    }
    proof {
        assert(ls@.take(ls@.len() as int) =~= ls@);
    }
    (movies, shows, seasons, episodes)
}

/// The seven library families of one media-server result: per-library
/// counts (child and grand-child where reported) and the instance-wide
/// movie, show, season and episode aggregates.
pub open spec fn spec_library_families(
    kind: Seq<char>,
    name: Seq<char>,
    ls: Seq<LibraryCount>,
) -> Seq<GFamily> {
    seq![
        GFamily {
            name: kind + "_library_count"@,
            help: "Library item count"@,
            samples: ms_library_count_samples(name, ls),
        },
        GFamily {
            name: kind + "_library_child_count"@,
            help: "Library child count"@,
            samples: ms_library_child_samples(name, ls),
        },
        GFamily {
            name: kind + "_library_grandchild_count"@,
            help: "Library grand-child count"@,
            samples: ms_library_grandchild_samples(name, ls),
        },
        GFamily {
            name: kind + "_movie_count"@,
            help: "Movie count"@,
            samples: seq![GSample { labels: Seq::empty(), value: spec_movie_total(ls) }],
        },
        GFamily {
            name: kind + "_show_count"@,
            help: "Show count"@,
            samples: seq![GSample { labels: Seq::empty(), value: spec_show_total(ls) }],
        },
        GFamily {
            name: kind + "_season_count"@,
            help: "Season count"@,
            samples: seq![GSample { labels: Seq::empty(), value: spec_season_total(ls) }],
        },
        GFamily {
            name: kind + "_episode_count"@,
            help: "Episode count"@,
            samples: seq![GSample { labels: Seq::empty(), value: spec_episode_total(ls) }],
        },
    ]
}

/// Registers one media-server library result.
pub fn render_library(acc: &mut Vec<MetricFamily>, result: &LibraryResult)
    ensures
        models(final(acc)@) == spec_merge_all(
            models(old(acc)@),
            spec_library_families(result.kind@, result.name@, result.libraries@),
        ),
{
    let ghost fams = spec_library_families(result.kind@, result.name@, result.libraries@);
    let kind = &result.kind;
    let name = &result.name;
    let ls = &result.libraries;
    let (movies, shows, seasons, episodes) = library_totals(ls);
    let mut fs: Vec<MetricFamily> = Vec::new();
    fs.push(
        family(
            prefixed_name(kind, "_library_count"),
            "Library item count",
            ms_library_count_samples_exec(name, ls),
        ),
    );
    fs.push(
        family(
            prefixed_name(kind, "_library_child_count"),
            "Library child count",
            ms_library_child_samples_exec(name, ls),
        ),
    );
    fs.push(
        family(
            prefixed_name(kind, "_library_grandchild_count"),
            "Library grand-child count",
            ms_library_grandchild_samples_exec(name, ls),
        ),
    );
    fs.push(scalar_family(prefixed_name(kind, "_movie_count"), "Movie count", movies));
    fs.push(scalar_family(prefixed_name(kind, "_show_count"), "Show count", shows));
    fs.push(scalar_family(prefixed_name(kind, "_season_count"), "Season count", seasons));
    fs.push(scalar_family(prefixed_name(kind, "_episode_count"), "Episode count", episodes));
    proof {
        assert(models(fs@) =~= fams);
    }
    crate::prometheus::add_families(acc, fs);
}

/// The families one task result contributes.
pub open spec fn spec_result_families(r: TaskResult) -> Seq<GFamily> {
    match r {
        TaskResult::SonarrToday(x) => spec_sonarr_families(x.name@, x.episodes@, false),
        TaskResult::SonarrMissing(x) => spec_sonarr_families(x.name@, x.episodes@, true),
        TaskResult::Radarr(x) => spec_radarr_families(x.name@, x.movies@),
        TaskResult::Lidarr(x) => spec_lidarr_families(x.name@, x.artists@),
        TaskResult::Readarr(x) => spec_readarr_families(x.name@, x.authors@),
        TaskResult::Overseerr(x) => spec_seerr_families(x.kind@, x.requests@),
        TaskResult::Jellyseerr(x) => spec_seerr_families(x.kind@, x.requests@),
        TaskResult::TautulliSession(x) => spec_tautulli_session_families(x.sessions@),
        TaskResult::TautulliLibrary(x) => spec_tautulli_library_families(x.libraries@),
        TaskResult::TautulliHistory(x) => spec_tautulli_history_families(
            x.total_plays as int,
            x.plays_last_day as int,
            x.user_watches@,
        ),
        TaskResult::PlexSession(x) => spec_session_families(x.kind@, x.name@, x.sessions@, x.users@),
        TaskResult::PlexLibrary(x) => spec_library_families(x.kind@, x.name@, x.libraries@),
        TaskResult::JellyfinSession(x) => spec_session_families(
            x.kind@,
            x.name@,
            x.sessions@,
            x.users@,
        ),
        TaskResult::JellyfinLibrary(x) => spec_library_families(x.kind@, x.name@, x.libraries@),
        TaskResult::Idle => Seq::empty(),
    }
}

/// The registry of a whole scrape: every result's families, merged in
/// order.
pub open spec fn spec_scrape_families(rs: Seq<TaskResult>) -> Seq<GFamily>
    decreases rs.len(),
{
    if rs.len() == 0 {
        Seq::empty()
    } else {
        spec_merge_all(spec_scrape_families(rs.drop_last()), spec_result_families(rs.last()))
    }
}

/// Registers one task result's families.
pub fn render_task_result(acc: &mut Vec<MetricFamily>, r: &TaskResult)
    ensures
        models(final(acc)@) == spec_merge_all(models(old(acc)@), spec_result_families(*r)),
{
    match r {
        TaskResult::SonarrToday(x) => render_sonarr_today(acc, x),
        TaskResult::SonarrMissing(x) => render_sonarr_missing(acc, x),
        TaskResult::Radarr(x) => render_radarr(acc, x),
        TaskResult::Lidarr(x) => render_lidarr(acc, x),
        TaskResult::Readarr(x) => render_readarr(acc, x),
        TaskResult::Overseerr(x) => render_seerr(acc, x),
        TaskResult::Jellyseerr(x) => render_seerr(acc, x),
        TaskResult::TautulliSession(x) => render_tautulli_session(acc, x),
        TaskResult::TautulliLibrary(x) => render_tautulli_library(acc, x),
        TaskResult::TautulliHistory(x) => render_tautulli_history(acc, x),
        TaskResult::PlexSession(x) => render_sessions(acc, x),
        TaskResult::PlexLibrary(x) => render_library(acc, x),
        TaskResult::JellyfinSession(x) => render_sessions(acc, x),
        TaskResult::JellyfinLibrary(x) => render_library(acc, x),
        TaskResult::Idle => {
            proof {
                assert(spec_merge_all(models(acc@), Seq::<GFamily>::empty()) == models(acc@));
            }
        },
    }
}

/// Builds the registry of a whole scrape.
pub fn render_results(results: &Vec<TaskResult>) -> (r: Vec<MetricFamily>)
    ensures
        models(r@) == spec_scrape_families(results@),
{
    let mut acc: Vec<MetricFamily> = Vec::new();
    proof {
        assert(models(acc@) =~= Seq::<GFamily>::empty());
        assert(spec_scrape_families(results@.take(0)) =~= Seq::<GFamily>::empty());
    }
    let mut i: usize = 0;
    while i < results.len()
        invariant
            i <= results@.len(),
            models(acc@) == spec_scrape_families(results@.take(i as int)),
        decreases results@.len() - i,
    {
        proof {
            assert(results@.take(i + 1).drop_last() =~= results@.take(i as int));
            assert(results@.take(i + 1).last() == results@[i as int]);
        }
        render_task_result(&mut acc, &results[i]);
        i += 1;
    }
    proof {
        assert(results@.take(results@.len() as int) =~= results@);
    }
    acc
}

/// The session count of a scrape always equals the number of
/// session-info series produced in the same scrape, for Tautulli and
/// for each media-server result alike.
pub proof fn lemma_session_count_consistency(
    kind: Seq<char>,
    name: Seq<char>,
    sessions: Seq<Session>,
    users: Seq<User>,
    tautulli_sessions: Seq<SessionSummary>,
)
    ensures
        spec_session_families(kind, name, sessions, users)[0].samples[0].value
            == spec_session_families(kind, name, sessions, users)[1].samples.len(),
        spec_tautulli_session_families(tautulli_sessions)[0].samples[0].value
            == spec_tautulli_session_families(tautulli_sessions)[1].samples.len(),
{
}

/// For a Plex instance the two published bandwidth series partition
/// the total known session bandwidth: LAN plus WAN equals the sum
/// over every session whose location is known.
pub proof fn lemma_plex_bandwidth_partition(
    name: Seq<char>,
    sessions: Seq<Session>,
    users: Seq<User>,
)
    ensures
        spec_session_families("plex"@, name, sessions, users)[5].samples[0].value
            + spec_session_families("plex"@, name, sessions, users)[5].samples[1].value
            == spec_known_sum(sessions),
{
    lemma_bandwidth_partition(sessions);
}

/// A user name is known when some known user carries it.
pub open spec fn spec_known_user(users: Seq<User>, name: Seq<char>) -> bool {
    exists|i: int| 0 <= i < users.len() && users[i].name@ == name
}

proof fn lemma_active_users_have_sessions(sessions: Seq<Session>)
    ensures
        forall|x: Seq<char>|
            seq_has_str(spec_active_users(sessions), x) ==> spec_session_user_exists(sessions, x),
    decreases sessions.len(),
{
    if sessions.len() > 0 {
        lemma_active_users_have_sessions(sessions.drop_last());
        let active = spec_active_users(sessions);
        let rest = spec_active_users(sessions.drop_last());
        assert forall|x: Seq<char>| seq_has_str(active, x) implies spec_session_user_exists(
            sessions,
            x,
        ) by {
            if seq_has_str(rest, x) {
                assert(spec_session_user_exists(sessions.drop_last(), x));
                let i = choose|i: int|
                    0 <= i < sessions.drop_last().len() && sessions.drop_last()[i].user@ == x;
                assert(sessions[i].user@ == x);
            } else {
                let i = choose|i: int| 0 <= i < active.len() && active[i] == x;
                assert(active[i] == sessions.last().user@);
                assert(sessions[sessions.len() - 1].user@ == x);
            }
        }
    }
}

proof fn lemma_inactive_users_facts(users: Seq<User>, sessions: Seq<Session>)
    ensures
        forall|x: Seq<char>|
            seq_has_str(spec_inactive_users(users, sessions), x) ==> !spec_session_user_exists(
                sessions,
                x,
            ) && spec_known_user(users, x),
    decreases users.len(),
{
    if users.len() > 0 {
        lemma_inactive_users_facts(users.drop_last(), sessions);
        let inactive = spec_inactive_users(users, sessions);
        let rest = spec_inactive_users(users.drop_last(), sessions);
        assert forall|x: Seq<char>| seq_has_str(inactive, x) implies !spec_session_user_exists(
            sessions,
            x,
        ) && spec_known_user(users, x) by {
            if seq_has_str(rest, x) {
                assert(spec_known_user(users.drop_last(), x));
                let i = choose|i: int|
                    0 <= i < users.drop_last().len() && users.drop_last()[i].name@ == x;
                assert(users[i].name@ == x);
            } else {
                let i = choose|i: int| 0 <= i < inactive.len() && inactive[i] == x;
                assert(inactive[i] == users.last().name@);
                assert(users[users.len() - 1].name@ == x);
            }
        }
    }
}

/// The user-active complement: no user is reported both active and
/// inactive, and — as long as every session belongs to a known user —
/// every reported user is a known user.
pub proof fn lemma_user_active_complement(users: Seq<User>, sessions: Seq<Session>)
    requires
        forall|i: int|
            0 <= i < sessions.len() ==> spec_known_user(users, (#[trigger] sessions[i]).user@),
    ensures
        forall|x: Seq<char>|
            seq_has_str(spec_active_users(sessions), x) ==> !seq_has_str(
                spec_inactive_users(users, sessions),
                x,
            ),
        forall|x: Seq<char>|
            seq_has_str(spec_active_users(sessions), x) || seq_has_str(
                spec_inactive_users(users, sessions),
                x,
            ) ==> spec_known_user(users, x),
{
    lemma_active_users_have_sessions(sessions);
    lemma_inactive_users_facts(users, sessions);
    assert forall|x: Seq<char>| seq_has_str(spec_active_users(sessions), x) implies !seq_has_str(
        spec_inactive_users(users, sessions),
        x,
    ) by {
        if seq_has_str(spec_inactive_users(users, sessions), x) {
            assert(!spec_session_user_exists(sessions, x));
            assert(spec_session_user_exists(sessions, x));
        }
    }
    assert forall|x: Seq<char>|
        seq_has_str(spec_active_users(sessions), x) || seq_has_str(
            spec_inactive_users(users, sessions),
            x,
        ) implies spec_known_user(users, x) by {
        if seq_has_str(spec_active_users(sessions), x) {
            assert(spec_session_user_exists(sessions, x));
            let i = choose|i: int| 0 <= i < sessions.len() && sessions[i].user@ == x;
            assert(spec_known_user(users, sessions[i].user@));
        }
    }
}

/// Encoding is a function of the results and the format alone: equal
/// inputs give byte-identical documents.
pub proof fn lemma_encoder_deterministic(
    rs1: Seq<TaskResult>,
    rs2: Seq<TaskResult>,
    format: Format,
)
    requires
        rs1 == rs2,
    ensures
        crate::prometheus::spec_document(spec_scrape_families(rs1), format)
            == crate::prometheus::spec_document(spec_scrape_families(rs2), format),
{
}

/// Every gauge value of every family is zero.
pub open spec fn spec_families_all_zero(fs: Seq<GFamily>) -> bool {
    forall|i: int, j: int|
        0 <= i < fs.len() && 0 <= j < fs[i].samples.len() ==> (#[trigger] fs[i].samples[j]).value
            == 0
}

/// Failure isolation: a task whose fetch failed or was cancelled
/// contributes its empty result, and that result still registers its
/// full set of families — every series it carries (the totals, and
/// for Plex the two bandwidth sides) stands at zero. The scrape as a
/// whole still encodes to a well-formed document, since the encoder
/// is total.
pub proof fn lemma_failure_isolation(r: TaskResult)
    requires
        crate::tasks::is_empty_result(r),
    ensures
        spec_families_all_zero(spec_result_families(r)),
{
    let fs = spec_result_families(r);
    match r {
        TaskResult::SonarrToday(x) => {
            assert(fs == spec_sonarr_families(x.name@, x.episodes@, false));
        },
        TaskResult::SonarrMissing(x) => {
            assert(fs == spec_sonarr_families(x.name@, x.episodes@, true));
        },
        TaskResult::Radarr(x) => {
            assert(spec_count_monitored(x.movies@) == 0);
            assert(spec_count_missing(x.movies@) == 0);
        },
        TaskResult::Lidarr(x) => {
            assert(spec_count_monitored_artists(x.artists@) == 0);
            assert(spec_track_sum(x.artists@) == 0);
        },
        TaskResult::Readarr(x) => {
            assert(spec_count_monitored_authors(x.authors@) == 0);
            assert(spec_book_sum(x.authors@) == 0);
        },
        TaskResult::Overseerr(x) => {
            assert(spec_count_status(x.requests@, 1) == 0);
            assert(spec_count_status(x.requests@, 2) == 0);
            assert(spec_count_status(x.requests@, 3) == 0);
        },
        TaskResult::Jellyseerr(x) => {
            assert(spec_count_status(x.requests@, 1) == 0);
            assert(spec_count_status(x.requests@, 2) == 0);
            assert(spec_count_status(x.requests@, 3) == 0);
        },
        TaskResult::TautulliSession(_) => {},
        TaskResult::TautulliLibrary(x) => {
            assert(tt_parent_samples(x.libraries@) =~= Seq::<GSample>::empty());
            assert(tt_child_samples(x.libraries@) =~= Seq::<GSample>::empty());
        },
        TaskResult::TautulliHistory(_) => {},
        TaskResult::PlexSession(x) => {
            assert(spec_active_users(x.sessions@) =~= Seq::<Seq<char>>::empty());
            assert(spec_inactive_users(x.users@, x.sessions@) =~= Seq::<Seq<char>>::empty());
            assert(spec_lan_sum(x.sessions@) == 0);
            assert(spec_wan_sum(x.sessions@) == 0);
        },
        TaskResult::PlexLibrary(x) => {
            assert(ms_library_child_samples(x.name@, x.libraries@) =~= Seq::<GSample>::empty());
            assert(ms_library_grandchild_samples(x.name@, x.libraries@) =~= Seq::<
                GSample,
            >::empty());
            assert(spec_movie_total(x.libraries@) == 0);
            assert(spec_show_total(x.libraries@) == 0);
            assert(spec_season_total(x.libraries@) == 0);
            assert(spec_episode_total(x.libraries@) == 0);
        },
        TaskResult::JellyfinSession(x) => {
            assert(spec_active_users(x.sessions@) =~= Seq::<Seq<char>>::empty());
            assert(spec_inactive_users(x.users@, x.sessions@) =~= Seq::<Seq<char>>::empty());
            assert(spec_lan_sum(x.sessions@) == 0);
            assert(spec_wan_sum(x.sessions@) == 0);
        },
        TaskResult::JellyfinLibrary(x) => {
            assert(ms_library_child_samples(x.name@, x.libraries@) =~= Seq::<GSample>::empty());
            assert(ms_library_grandchild_samples(x.name@, x.libraries@) =~= Seq::<
                GSample,
            >::empty());
            assert(spec_movie_total(x.libraries@) == 0);
            assert(spec_show_total(x.libraries@) == 0);
            assert(spec_season_total(x.libraries@) == 0);
            assert(spec_episode_total(x.libraries@) == 0);
        },
        TaskResult::Idle => {},
    }
}

} // verus!
