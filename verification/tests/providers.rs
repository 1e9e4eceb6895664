use homers::providers::jellyfin::{
    library_counts_from_infos, library_infos_from_counts, session_from_jellyfin,
};
use homers::providers::overseerr::{requests_from_wire, Overseerr};
use homers::providers::plex::{
    library_infos_from_sections, session_from_plex, users_from_statistics, views_from_history,
    Plex,
};
use homers::providers::sonarr::missing_episodes_from_calendars;
use homers::providers::structs::jellyfin::{
    JellyfinLibraryCounts, MediaStream, NowPlayingItem, PlayState, SessionResponse,
};
use homers::providers::structs::overseerr::{Media, Movie, RequestRecord, RequestedBy, Tv};
use homers::providers::structs::plex::{
    Directory, HistoryMetadata, LibraryItemsContainer, LibraryMetadata, Media as PlexMedia, Part,
    Player, SessionMetadata, StatUser, StatisticsContainer, Stream,
};
use homers::providers::structs::sonarr::Calendar;
use homers::providers::structs::tautulli::{HistoryEntry, Library};
use homers::providers::structs::{
    location_from_lookup, progress_percent, GeoLookup, Location, MediaType, StreamDecision,
};
use homers::providers::tautulli::{plays_in_window, user_watches, Tautulli};

fn unknown_location() -> Location {
    location_from_lookup("93.184.216.34", None)
}

#[test]
fn geo_lookup_failure_yields_sentinel() {
    let l = location_from_lookup("1.2.3.4", None);
    assert_eq!(l.city, "Unknown");
    assert_eq!(l.country, "Unknown");
    assert_eq!(l.ip_address, "1.2.3.4");
    assert_eq!(l.latitude, "0.0");
    assert_eq!(l.longitude, "0.0");
}

#[test]
fn geo_lookup_success_keeps_fields() {
    let l = location_from_lookup(
        "1.2.3.4",
        Some(GeoLookup {
            city: "Lyon".to_string(),
            country: "France".to_string(),
            latitude: "45.75".to_string(),
            longitude: "4.85".to_string(),
        }),
    );
    assert_eq!(l.city, "Lyon");
    assert_eq!(l.ip_address, "1.2.3.4");
}

#[test]
fn progress_is_clamped_percent() {
    assert_eq!(progress_percent(0, 100), 0);
    assert_eq!(progress_percent(50, 200), 25);
    assert_eq!(progress_percent(250, 200), 100);
    assert_eq!(progress_percent(10, 0), 0);
    assert_eq!(progress_percent(-5, 100), 0);
}

#[test]
fn missing_episodes_filter_files() {
    let mk = |n: i64, has_file: bool| Calendar {
        season_number: 2,
        episode_number: n,
        title: format!("ep{}", n),
        air_date: "2024-05-01".to_string(),
        has_file,
        series_title: "Show".to_string(),
    };
    let eps = missing_episodes_from_calendars(&vec![mk(1, true), mk(2, false), mk(3, false)]);
    assert_eq!(eps.len(), 2);
    assert_eq!(eps[0].episode_number, 2);
    assert_eq!(eps[1].episode_number, 3);
    assert_eq!(eps[0].sxe, "S02E02");
    assert!(!eps[0].has_file);
}

fn wire_request(status: i64, media_status: i64, username: Option<&str>, plex: Option<&str>) -> RequestRecord {
    RequestRecord {
        status,
        created_at: "2024-01-02T03:04:05Z".to_string(),
        is_auto_request: false,
        media: Media {
            id: 7,
            media_type: "movie".to_string(),
            tmdb_id: 603,
            status: media_status,
            created_at: "2024-01-01".to_string(),
        },
        requested_by: RequestedBy {
            permissions: 2,
            id: 1,
            plex_username: plex.map(|s| s.to_string()),
            username: username.map(|s| s.to_string()),
        },
    }
}

#[test]
fn overseerr_username_fallback() {
    let wire = vec![
        wire_request(1, 1, Some("user"), Some("plex")),
        wire_request(2, 3, None, Some("plex")),
        wire_request(3, 5, None, None),
    ];
    let titles = vec![Some("Matrix".to_string()), None, Some("Dune".to_string())];
    let reqs = requests_from_wire(&wire, &titles);
    assert_eq!(reqs[0].requested_by, "user");
    assert_eq!(reqs[1].requested_by, "plex");
    assert_eq!(reqs[2].requested_by, "Unknown");
    assert_eq!(reqs[0].media_title, "Matrix");
    assert_eq!(reqs[1].media_title, "Unknown");
    for (i, r) in reqs.iter().enumerate() {
        assert_eq!(r.status, wire[i].status);
        assert_eq!(r.media_status, wire[i].media.status);
        assert!(r.status >= 1 && r.status <= 3);
        assert!(r.media_status >= 1 && r.media_status <= 5);
    }
}

#[test]
fn overseerr_urls() {
    let o = Overseerr::new("http://seer/", "SECRET-REDACTED", 20);
    assert_eq!(o.address, "http://seer");
    assert_eq!(o.requests_url(), "http://seer/api/v1/request");
    assert_eq!(o.media_title_url("movie", 603), "http://seer/api/v1/movie/603");
    assert_eq!(o.media_title_url("tv", 42), "http://seer/api/v1/tv/42");
}

#[test]
fn overseerr_title_extraction() {
    let m = Movie { original_title: Some("Le Samourai".to_string()) };
    assert_eq!(homers::providers::overseerr::title_from_movie(&m), "Le Samourai");
    let m = Movie { original_title: None };
    assert_eq!(homers::providers::overseerr::title_from_movie(&m), "Unknown");
    let t = Tv { name: "The Wire".to_string() };
    assert_eq!(homers::providers::overseerr::title_from_tv(&t), "The Wire");
}

fn jellyfin_session(position: Option<i64>, run_time: i64, paused: Option<bool>, method: Option<&str>) -> SessionResponse {
    SessionResponse {
        play_state: PlayState {
            position_ticks: position,
            is_paused: paused,
            play_method: method.map(|m| m.to_string()),
        },
        user_name: "alice".to_string(),
        device_type: None,
        client: "web".to_string(),
        now_playing_item: Some(NowPlayingItem {
            name: "Film".to_string(),
            run_time_ticks: run_time,
            type_field: "Movie".to_string(),
            index_number: Some(3),
            parent_index_number: Some(2),
            media_streams: vec![
                MediaStream {
                    codec: "aac".to_string(),
                    type_field: "Audio".to_string(),
                    display_title: Some("AAC stereo".to_string()),
                    title: None,
                },
                MediaStream {
                    codec: "h264".to_string(),
                    type_field: "Video".to_string(),
                    display_title: Some("1080p H264".to_string()),
                    title: None,
                },
            ],
        }),
        transcoding_info: None,
        remote_end_point: "198.51.100.7".to_string(),
    }
}

#[test]
fn jellyfin_session_normalisation() {
    let s = session_from_jellyfin(&jellyfin_session(Some(50), 200, Some(false), Some("DirectPlay")), unknown_location());
    assert_eq!(s.title, "Film");
    assert_eq!(s.user, "alice");
    assert_eq!(s.state, "Playing");
    assert_eq!(s.progress, 25);
    assert_eq!(s.quality, "1080p H264");
    assert_eq!(s.season_number.as_deref(), Some("2"));
    assert_eq!(s.episode_number.as_deref(), Some("3"));
    assert!(matches!(s.stream_decision, StreamDecision::DirectPlay));
    assert!(!s.local && !s.relayed);
    assert_eq!(s.bandwidth.bandwidth, -1);

    let s = session_from_jellyfin(&jellyfin_session(Some(50), 200, Some(true), Some("Transcode")), unknown_location());
    assert_eq!(s.state, "Paused");
    assert!(matches!(s.stream_decision, StreamDecision::Transcode));

    let s = session_from_jellyfin(&jellyfin_session(None, 200, None, None), unknown_location());
    assert_eq!(s.state, "Idle");
    assert_eq!(s.progress, 0);
    assert!(matches!(s.stream_decision, StreamDecision::NoDecision));
}

#[test]
fn jellyfin_library_expansion() {
    let counts = JellyfinLibraryCounts {
        movie_count: 10,
        series_count: 3,
        episode_count: 120,
        artist_count: 4,
        program_count: 0,
        trailer_count: 0,
        song_count: 300,
        album_count: 25,
        music_video_count: 0,
        box_set_count: 0,
        book_count: 7,
        item_count: 465,
    };
    let infos = library_infos_from_counts(&counts);
    assert_eq!(infos.len(), 4);
    assert_eq!(infos[0].name, "Movies");
    assert_eq!(infos[0].count, 10);
    assert_eq!(infos[1].grand_child_count, Some(120));
    assert_eq!(infos[2].child_count, Some(4));
    assert_eq!(infos[3].count, 7);
    let libs = library_counts_from_infos(&infos);
    assert!(matches!(libs[0].media_type, MediaType::Movie));
    assert!(matches!(libs[1].media_type, MediaType::Show));
    assert!(matches!(libs[2].media_type, MediaType::Music));
    assert!(matches!(libs[3].media_type, MediaType::Book));
}

fn plex_session(decision: &str, stream_decision: Option<&str>, local: bool, relayed: bool) -> SessionMetadata {
    SessionMetadata {
        title: "Episode Nine".to_string(),
        original_title: None,
        parent_title: Some("Season 1".to_string()),
        grand_parent_title: Some("The Show".to_string()),
        index: Some(9),
        parent_index: Some(1),
        type_field: "episode".to_string(),
        media: vec![PlexMedia {
            part: vec![Part {
                decision: decision.to_string(),
                container: "mkv".to_string(),
                stream: vec![Stream {
                    display_title: "1080p (HEVC)".to_string(),
                    stream_type: 1,
                    decision: stream_decision.map(|d| d.to_string()),
                }],
            }],
            duration: 1000,
        }],
        user: homers::providers::structs::plex::User { title: "bob".to_string() },
        player: Player {
            platform: "Chrome".to_string(),
            state_field: "playing".to_string(),
            local,
            remote_public_address: "203.0.113.5".to_string(),
            relayed,
            secure: true,
            product: "Plex Web".to_string(),
            address: "192.168.1.10".to_string(),
        },
        session: homers::providers::structs::plex::Session {
            location: "lan".to_string(),
            bandwidth: 4500,
        },
        view_offset: 250,
    }
}

#[test]
fn plex_session_normalisation() {
    let s = session_from_plex(&plex_session("directplay", None, true, false), unknown_location());
    assert_eq!(s.title, "The Show");
    assert_eq!(s.user, "bob");
    assert_eq!(s.progress, 25);
    assert_eq!(s.quality, "1080p (HEVC)");
    assert_eq!(s.season_number.as_deref(), Some("1"));
    assert_eq!(s.episode_number.as_deref(), Some("9"));
    assert!(matches!(s.stream_decision, StreamDecision::DirectPlay));
    assert!(matches!(s.bandwidth.location, homers::providers::structs::BandwidthLocation::Lan));
    assert_eq!(s.bandwidth.bandwidth, 4500);

    let s = session_from_plex(&plex_session("transcode", Some("copy"), false, false), unknown_location());
    assert!(matches!(s.stream_decision, StreamDecision::DirectStream));
    let s = session_from_plex(&plex_session("transcode", None, false, false), unknown_location());
    assert!(matches!(s.stream_decision, StreamDecision::Transcode));
}

#[test]
fn plex_session_local_wins_over_relayed() {
    let s = session_from_plex(&plex_session("directplay", None, true, true), unknown_location());
    assert!(s.local);
    assert!(!s.relayed);
}

#[test]
fn plex_show_library_aggregation() {
    let sections = vec![
        (
            Directory {
                key: "1".to_string(),
                title: "TV".to_string(),
                type_field: "show".to_string(),
            },
            LibraryItemsContainer {
                size: 2,
                metadata: vec![
                    LibraryMetadata {
                        type_field: "show".to_string(),
                        title: "A".to_string(),
                        leaf_count: Some(10),
                        child_count: Some(1),
                    },
                    LibraryMetadata {
                        type_field: "show".to_string(),
                        title: "B".to_string(),
                        leaf_count: Some(32),
                        child_count: Some(3),
                    },
                ],
            },
        ),
        (
            Directory {
                key: "2".to_string(),
                title: "Films".to_string(),
                type_field: "movie".to_string(),
            },
            LibraryItemsContainer { size: 70, metadata: Vec::new() },
        ),
    ];
    let infos = library_infos_from_sections(&sections);
    assert_eq!(infos[0].library_child_size, Some(4));
    assert_eq!(infos[0].library_grand_child_size, Some(42));
    assert_eq!(infos[0].library_size, 2);
    assert_eq!(infos[1].library_child_size, None);
    assert_eq!(infos[1].library_size, 70);
}

#[test]
fn plex_views_and_users() {
    let history = vec![
        HistoryMetadata { type_field: "episode".to_string(), history_key: "1".to_string() },
        HistoryMetadata { type_field: "movie".to_string(), history_key: "2".to_string() },
        HistoryMetadata { type_field: "episode".to_string(), history_key: "3".to_string() },
        HistoryMetadata { type_field: "track".to_string(), history_key: "4".to_string() },
    ];
    let views = views_from_history(&history);
    assert_eq!(views.episodes_viewed, 2);
    assert_eq!(views.movies_viewed, 1);

    let stats = StatisticsContainer {
        size: 1,
        account: vec![StatUser { name: "alice".to_string() }],
    };
    let users = users_from_statistics(Some(&stats));
    assert_eq!(users.len(), 1);
    assert_eq!(users[0].name, "alice");
    assert!(users_from_statistics(None).is_empty());
}

#[test]
fn plex_urls() {
    let p = Plex::new("main", "http://plex:32400/", "SECRET-REDACTED");
    assert_eq!(p.address, "http://plex:32400");
    assert_eq!(p.sessions_url(), "http://plex:32400/status/sessions");
    assert_eq!(p.library_items_url("3"), "http://plex:32400/library/sections/3/all");
    assert_eq!(p.statistics_url(), "http://plex:32400/statistics/bandwidth?timespan=0");
}

#[test]
fn tautulli_command_url() {
    let t = Tautulli::new("http://tautulli/", "SECRET-REDACTED");
    assert_eq!(t.api_url, "http://tautulli/api/v2?apikey=SECRET-REDACTED&cmd=");
    assert_eq!(
        t.command_url("get_activity"),
        "http://tautulli/api/v2?apikey=SECRET-REDACTED&cmd=get_activity"
    );
}

fn history_entry(date: i64, user: &str, friendly: &str) -> HistoryEntry {
    HistoryEntry {
        date,
        user: user.to_string(),
        friendly_name: friendly.to_string(),
        media_type: "movie".to_string(),
        watched_status: 1,
    }
}

#[test]
fn tautulli_history_window_and_watches() {
    let now = 1_000_000i64;
    let entries = vec![
        history_entry(now - 100, "alice", "Alice"),
        history_entry(now - 86_400, "alice", "Alice"),
        history_entry(now - 86_401, "alice", "Alice"),
        history_entry(now - 200, "bob", ""),
    ];
    assert_eq!(plays_in_window(&entries, now), 3);
    let watches = user_watches(&entries, now);
    assert_eq!(watches.len(), 2);
    assert_eq!(watches[0].user, "Alice");
    assert_eq!(watches[0].count, 2);
    assert_eq!(watches[1].user, "bob");
    assert_eq!(watches[1].count, 1);
}

fn tautulli_wire_session(media_type: &str) -> homers::providers::structs::tautulli::Session {
    homers::providers::structs::tautulli::Session {
        media_type: media_type.to_string(),
        progress_percent: "85".to_string(),
        quality_profile: "Original".to_string(),
        user: "alice".to_string(),
        title: "Pilot".to_string(),
        grandparent_title: "The Show".to_string(),
        media_index: "1".to_string(),
        parent_media_index: "1".to_string(),
        video_full_resolution: "1080p".to_string(),
        video_decision: "direct play".to_string(),
        state: "playing".to_string(),
        ip_address: "10.0.0.9".to_string(),
        ip_address_public: "203.0.113.9".to_string(),
    }
}

fn tautulli_test_location() -> homers::providers::tautulli::TautulliLocation {
    homers::providers::tautulli::TautulliLocation {
        city: "Unknown".to_string(),
        country: "Unknown".to_string(),
        ip_address: "203.0.113.9".to_string(),
        latitude: "0.0".to_string(),
        longitude: "0.0".to_string(),
    }
}

#[test]
fn tautulli_session_branching() {
    let sums = homers::providers::tautulli::session_summaries(vec![(
        tautulli_wire_session("episode"),
        tautulli_test_location(),
    )]);
    assert_eq!(sums[0].title, "The Show");
    assert_eq!(sums[0].season_number.as_deref(), Some("1"));

    let sums = homers::providers::tautulli::session_summaries(vec![(
        tautulli_wire_session("movie"),
        tautulli_test_location(),
    )]);
    assert_eq!(sums[0].title, "Pilot");
    assert!(sums[0].season_number.is_none());
}

#[test]
fn history_summary_is_pinned_by_its_clock_reading() {
    let entries = vec![
        history_entry(i64::MAX - 1, "alice", "Alice"),
        history_entry(0, "bob", ""),
    ];
    let (now, total, plays, watches) =
        homers::providers::tautulli::history_summary(5, &entries);
    assert_eq!(total, 5);
    assert!(now > 1_000_000_000);
    assert_eq!(plays as usize, plays_in_window(&entries, now));
    assert_eq!(plays, 1);
    assert_eq!(watches.len(), 1);
    assert_eq!(watches[0].user, "Alice");
}

#[test]
fn tautulli_library_counts_parse() {
    let lib = Library {
        section_id: "1".to_string(),
        section_name: "Films".to_string(),
        section_type: "movie".to_string(),
        count: "70".to_string(),
        is_active: 1,
        parent_count: None,
        child_count: None,
    };
    let result = homers::tasks::TaskResult::TautulliLibrary(homers::tasks::TautulliLibraryResult {
        libraries: vec![lib],
    });
    let body = homers::prometheus::format_metrics(&vec![result], homers::prometheus::Format::Prometheus);
    assert!(body.contains(
        "homers_tautulli_library_item_count{section_name=\"Films\",section_type=\"movie\"} 70"
    ));
    assert!(body.contains(
        "homers_tautulli_library_active{section_name=\"Films\",section_type=\"movie\"} 1"
    ));
}
