use homers::prometheus::{format_metrics, Format};
use homers::providers::radarr::movies_from_wire;
use homers::providers::sonarr::episodes_from_calendars;
use homers::providers::structs::radarr::Movie;
use homers::providers::structs::sonarr::Calendar;
use homers::providers::structs::{
    Bandwidth, BandwidthLocation, Location, Session, StreamDecision, User,
};
use homers::tasks::{RadarrMovieResult, SessionResult, SonarrEpisodeResult, Task, TaskResult};

fn location(ip: &str) -> Location {
    Location {
        city: "Unknown".to_string(),
        country: "Unknown".to_string(),
        ip_address: ip.to_string(),
        latitude: "0.0".to_string(),
        longitude: "0.0".to_string(),
    }
}

fn session(user: &str, kbps: i64, loc: BandwidthLocation) -> Session {
    Session {
        title: "A Movie".to_string(),
        user: user.to_string(),
        stream_decision: StreamDecision::DirectPlay,
        media_type: "movie".to_string(),
        state: "playing".to_string(),
        progress: 50,
        quality: "1080p".to_string(),
        season_number: None,
        episode_number: None,
        address: "10.0.0.2".to_string(),
        location: location("93.184.216.34"),
        local: false,
        secure: true,
        relayed: false,
        platform: "web".to_string(),
        bandwidth: Bandwidth { bandwidth: kbps, location: loc },
    }
}

#[test]
fn sonarr_today_one_match() {
    let calendars = vec![Calendar {
        season_number: 1,
        episode_number: 1,
        title: "Test".to_string(),
        air_date: "2024-01-01".to_string(),
        has_file: true,
        series_title: "Test".to_string(),
    }];
    let episodes = episodes_from_calendars(&calendars);
    assert_eq!(episodes[0].sxe, "S01E01");
    let result = TaskResult::SonarrToday(SonarrEpisodeResult {
        name: "test".to_string(),
        episodes,
    });
    let body = format_metrics(&vec![result], Format::Prometheus);
    assert!(body.contains(
        "homers_sonarr_today_episode{season_number=\"1\",episode_number=\"1\",title=\"Test\",serie=\"Test\",sxe=\"S01E01\",name=\"test\"} 1"
    ));
    assert!(body.contains("homers_sonarr_today_episodes_total{name=\"test\"} 1"));
}

#[test]
fn radarr_aggregate() {
    let wire = vec![
        Movie {
            title: "Matrix".to_string(),
            has_file: true,
            monitored: true,
            is_available: true,
        },
        Movie {
            title: "Dune".to_string(),
            has_file: false,
            monitored: true,
            is_available: true,
        },
        Movie {
            title: "Old".to_string(),
            has_file: false,
            monitored: false,
            is_available: false,
        },
    ];
    let movies = movies_from_wire(&wire);
    assert!(!movies[0].missing_available);
    assert!(movies[1].missing_available);
    assert!(!movies[2].missing_available);
    for m in &movies {
        assert_eq!(m.missing_available, !m.has_file && m.is_available);
    }
    let result = TaskResult::Radarr(RadarrMovieResult {
        name: "radarr".to_string(),
        movies,
    });
    let body = format_metrics(&vec![result], Format::Prometheus);
    assert!(body.contains("homers_radarr_movies_total{name=\"radarr\"} 3"));
    assert!(body.contains("homers_radarr_movies_monitored_total{name=\"radarr\"} 2"));
    assert!(body.contains("homers_radarr_movies_missing_total{name=\"radarr\"} 1"));
    assert!(body.contains("homers_radarr_movie_has_file{name=\"radarr\",title=\"Matrix\"} 1"));
    assert!(body.contains("homers_radarr_movie_has_file{name=\"radarr\",title=\"Dune\"} 0"));
    assert!(body.contains("homers_radarr_movie_has_file{name=\"radarr\",title=\"Old\"} 0"));
}

#[test]
fn plex_bandwidth_partition() {
    let sessions = vec![
        session("alice", 8000, BandwidthLocation::Lan),
        session("bob", 20000, BandwidthLocation::Wan),
    ];
    let result = TaskResult::PlexSession(SessionResult {
        name: "plex".to_string(),
        kind: "plex".to_string(),
        users: Vec::new(),
        sessions,
    });
    let body = format_metrics(&vec![result], Format::Prometheus);
    assert!(body.contains("homers_plex_session_bandwidth{name=\"plex\",location=\"LAN\"} 8000"));
    assert!(body.contains("homers_plex_session_bandwidth{name=\"plex\",location=\"WAN\"} 20000"));
}

#[test]
fn plex_bandwidth_skips_unknown() {
    let sessions = vec![
        session("alice", 8000, BandwidthLocation::Lan),
        session("bob", 999, BandwidthLocation::Unknown),
    ];
    let result = TaskResult::PlexSession(SessionResult {
        name: "plex".to_string(),
        kind: "plex".to_string(),
        users: Vec::new(),
        sessions,
    });
    let body = format_metrics(&vec![result], Format::Prometheus);
    assert!(body.contains("homers_plex_session_bandwidth{name=\"plex\",location=\"LAN\"} 8000"));
    assert!(body.contains("homers_plex_session_bandwidth{name=\"plex\",location=\"WAN\"} 0"));
}

#[test]
fn inactive_users() {
    let users = vec![
        User { name: "alice".to_string() },
        User { name: "bob".to_string() },
        User { name: "carol".to_string() },
    ];
    let sessions = vec![
        session("alice", 100, BandwidthLocation::Lan),
        session("bob", 100, BandwidthLocation::Lan),
    ];
    let result = TaskResult::PlexSession(SessionResult {
        name: "plex".to_string(),
        kind: "plex".to_string(),
        users,
        sessions,
    });
    let body = format_metrics(&vec![result], Format::Prometheus);
    assert!(body.contains("homers_plex_user_active{name=\"plex\",user=\"alice\"} 1"));
    assert!(body.contains("homers_plex_user_active{name=\"plex\",user=\"bob\"} 1"));
    assert!(body.contains("homers_plex_user_active{name=\"plex\",user=\"carol\"} 0"));
}

#[test]
fn session_count_matches_info_series() {
    let sessions = vec![
        session("alice", 100, BandwidthLocation::Lan),
        session("bob", 100, BandwidthLocation::Wan),
    ];
    let result = TaskResult::PlexSession(SessionResult {
        name: "plex".to_string(),
        kind: "plex".to_string(),
        users: Vec::new(),
        sessions,
    });
    let body = format_metrics(&vec![result], Format::Prometheus);
    assert!(body.contains("homers_plex_session_count{name=\"plex\"} 2"));
    let info_series = body
        .lines()
        .filter(|l| l.starts_with("homers_plex_session_info{"))
        .count();
    assert_eq!(info_series, 2);
}

#[test]
fn openmetrics_has_eof_trailer() {
    let body = format_metrics(&Vec::new(), Format::OpenMetrics);
    assert_eq!(body, "# EOF\n");
    let result = TaskResult::SonarrToday(SonarrEpisodeResult {
        name: "test".to_string(),
        episodes: Vec::new(),
    });
    let body = format_metrics(&vec![result], Format::OpenMetrics);
    let last = body.lines().filter(|l| !l.is_empty()).last().unwrap();
    assert_eq!(last, "# EOF");
}

#[test]
fn prometheus_has_no_eof_trailer() {
    let result = TaskResult::SonarrToday(SonarrEpisodeResult {
        name: "test".to_string(),
        episodes: Vec::new(),
    });
    let body = format_metrics(&vec![result], Format::Prometheus);
    assert!(!body.contains("# EOF"));
}

#[test]
fn encoder_is_deterministic() {
    let make = || {
        vec![
            TaskResult::SonarrToday(SonarrEpisodeResult {
                name: "a".to_string(),
                episodes: Vec::new(),
            }),
            TaskResult::PlexSession(SessionResult {
                name: "p".to_string(),
                kind: "plex".to_string(),
                users: vec![User { name: "alice".to_string() }],
                sessions: vec![session("alice", 5, BandwidthLocation::Lan)],
            }),
        ]
    };
    let one = format_metrics(&make(), Format::OpenMetrics);
    let two = format_metrics(&make(), Format::OpenMetrics);
    assert_eq!(one, two);
}

#[test]
fn two_instances_one_family() {
    let a = TaskResult::SonarrToday(SonarrEpisodeResult {
        name: "one".to_string(),
        episodes: Vec::new(),
    });
    let b = TaskResult::SonarrToday(SonarrEpisodeResult {
        name: "two".to_string(),
        episodes: Vec::new(),
    });
    let body = format_metrics(&vec![a, b], Format::Prometheus);
    let headers = body
        .lines()
        .filter(|l| *l == "# TYPE homers_sonarr_today_episodes_total gauge")
        .count();
    assert_eq!(headers, 1);
    assert!(body.contains("homers_sonarr_today_episodes_total{name=\"one\"} 0"));
    assert!(body.contains("homers_sonarr_today_episodes_total{name=\"two\"} 0"));
}

#[test]
fn failed_scrape_still_encodes() {
    let tasks = vec![
        Task::SonarrToday(homers::providers::sonarr::Sonarr::new("s", "http://s", "k")),
        Task::Radarr(homers::providers::radarr::Radarr::new("r", "http://r", "k")),
        Task::PlexSession(homers::providers::plex::Plex::new("p", "http://p", "t")),
        Task::TautulliSession(homers::providers::tautulli::Tautulli::new("http://t", "k")),
    ];
    let mut results = Vec::new();
    for t in &tasks {
        results.push(homers::tasks::empty_result_for(t));
    }
    let body = format_metrics(&results, Format::Prometheus);
    assert!(body.contains("# HELP homers_sonarr_today_episode "));
    assert!(body.contains("# TYPE homers_sonarr_today_episode gauge"));
    assert!(body.contains("homers_sonarr_today_episodes_total{name=\"s\"} 0"));
    assert!(body.contains("homers_radarr_movies_total{name=\"r\"} 0"));
    assert!(body.contains("homers_plex_session_count{name=\"p\"} 0"));
    assert!(body.contains("homers_tautulli_session_count 0"));
}

#[test]
fn label_values_are_escaped() {
    let wire = vec![Movie {
        title: "A \"quoted\"\\titled\nmovie".to_string(),
        has_file: true,
        monitored: false,
        is_available: false,
    }];
    let result = TaskResult::Radarr(RadarrMovieResult {
        name: "radarr".to_string(),
        movies: movies_from_wire(&wire),
    });
    let body = format_metrics(&vec![result], Format::Prometheus);
    assert!(body.contains("title=\"A \\\"quoted\\\"\\\\titled\\nmovie\""));
}

#[test]
fn exact_document_for_one_empty_result() {
    let result = TaskResult::SonarrToday(SonarrEpisodeResult {
        name: "test".to_string(),
        episodes: Vec::new(),
    });
    let body = format_metrics(&vec![result], Format::Prometheus);
    let expected = "# HELP homers_sonarr_today_episode Sonarr today episode status\n# TYPE homers_sonarr_today_episode gauge\n# HELP homers_sonarr_today_episodes_total Sonarr today episode count\n# TYPE homers_sonarr_today_episodes_total gauge\nhomers_sonarr_today_episodes_total{name=\"test\"} 0\n";
    assert_eq!(body, expected);
}

#[test]
fn escape_label_value_rules() {
    assert_eq!(homers::prometheus::escape_label_value("plain"), "plain");
    assert_eq!(homers::prometheus::escape_label_value("a\\b"), "a\\\\b");
    assert_eq!(homers::prometheus::escape_label_value("a\"b"), "a\\\"b");
    assert_eq!(homers::prometheus::escape_label_value("a\nb"), "a\\nb");
}
