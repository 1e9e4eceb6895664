use homers::config::{get_tasks, remove_trailing_slash, Config, Instance, SeerrConfig, ServiceConfig};
use homers::http_server::{
    content_type_for, encoder_error_body, executor_error_body, get_openmetrics_content_type,
    get_text_plain_content_type, index_body, negotiate_format, HttpConfig,
};
use homers::prometheus::Format;
use homers::providers::sonarr::{initialize_api_key, sxe_string, Sonarr};
use homers::providers::{Provider, ProviderError, ProviderErrorKind};
use homers::tasks::{empty_result_for, Task, TaskResult};
use homers::text::{i128_to_string, parse_count, str_contains, str_eq, u128_to_string};

#[test]
fn trailing_slash_is_stripped_once() {
    assert_eq!(remove_trailing_slash("http://h/"), "http://h");
    assert_eq!(remove_trailing_slash("http://h"), "http://h");
    assert_eq!(
        remove_trailing_slash(remove_trailing_slash("http://h/")),
        remove_trailing_slash("http://h/")
    );
    assert_eq!(remove_trailing_slash(""), "");
    assert_eq!(remove_trailing_slash("/"), "");
}

#[test]
fn content_negotiation() {
    assert_eq!(
        negotiate_format(Some("application/openmetrics-text")),
        Format::OpenMetrics
    );
    assert_eq!(
        negotiate_format(Some("application/openmetrics-text; version=1.0.0")),
        Format::OpenMetrics
    );
    assert_eq!(negotiate_format(Some("text/plain")), Format::Prometheus);
    assert_eq!(negotiate_format(None), Format::Prometheus);
    assert_eq!(
        content_type_for(Format::OpenMetrics),
        "application/openmetrics-text; version=1.0.0; charset=utf-8"
    );
    assert_eq!(
        content_type_for(Format::Prometheus),
        "text/plain; version=0.0.4; charset=utf-8"
    );
    assert_eq!(
        get_openmetrics_content_type(),
        "application/openmetrics-text; version=1.0.0; charset=utf-8"
    );
    assert_eq!(get_text_plain_content_type(), "text/plain; version=0.0.4; charset=utf-8");
}

#[test]
fn fixed_bodies() {
    assert_eq!(index_body(), "Hello Homers");
    assert_eq!(encoder_error_body(), "Error formatting metrics. Check the logs.");
    assert_eq!(
        executor_error_body(),
        "Error while fetching provider data. Check the logs."
    );
}

#[test]
fn http_config_default() {
    let c = HttpConfig::default();
    assert_eq!(c.address, "localhost");
    assert_eq!(c.port, 8000);
}

fn instance(name: &str, address: &str) -> Instance {
    Instance {
        name: name.to_string(),
        address: address.to_string(),
        apikey: "SECRET-REDACTED".to_string(),
    }
}

#[test]
fn tasks_from_config() {
    let config = Config {
        http: None,
        tautulli: Some(ServiceConfig {
            address: "http://tautulli/".to_string(),
            apikey: "SECRET-REDACTED".to_string(),
        }),
        overseerr: Some(SeerrConfig {
            address: "http://seer".to_string(),
            apikey: "SECRET-REDACTED".to_string(),
            requests: None,
        }),
        jellyseerr: None,
        sonarr: vec![instance("main", "http://sonarr/")],
        radarr: vec![instance("films", "http://radarr")],
        lidarr: Vec::new(),
        readarr: Vec::new(),
        plex: vec![instance("den", "http://plex/")],
        jellyfin: Vec::new(),
    };
    let tasks = get_tasks(&config);
    assert_eq!(tasks.len(), 2 + 3 + 1 + 1 + 2);
    match &tasks[0] {
        Task::SonarrToday(s) => {
            assert_eq!(s.name, "main");
            assert_eq!(s.address, "http://sonarr");
        }
        _ => panic!("expected a Sonarr today task first"),
    }
    assert!(matches!(&tasks[1], Task::SonarrMissing(_)));
    assert!(matches!(&tasks[2], Task::TautulliSession(_)));
    assert!(matches!(&tasks[3], Task::TautulliLibrary(_)));
    assert!(matches!(&tasks[4], Task::TautulliHistory(_)));
    match &tasks[5] {
        Task::Radarr(r) => assert_eq!(r.address, "http://radarr/api/v3"),
        _ => panic!("expected a Radarr task"),
    }
    match &tasks[6] {
        Task::Overseerr(o) => assert_eq!(o.requests, Some(20)),
        _ => panic!("expected an Overseerr task"),
    }
    assert!(matches!(&tasks[7], Task::PlexSession(_)));
    assert!(matches!(&tasks[8], Task::PlexLibrary(_)));
}

#[test]
fn config_default_is_empty() {
    let c = Config::default();
    assert!(c.tautulli.is_none());
    assert!(c.sonarr.is_empty());
    let http = c.http.unwrap();
    assert_eq!(http.address, "localhost");
}

#[test]
fn empty_results_match_tasks() {
    let t = Task::SonarrToday(Sonarr::new("main", "http://sonarr", "k"));
    match empty_result_for(&t) {
        TaskResult::SonarrToday(r) => {
            assert_eq!(r.name, "main");
            assert!(r.episodes.is_empty());
        }
        _ => panic!("wrong empty result variant"),
    }
    let t = Task::Idle;
    assert!(matches!(empty_result_for(&t), TaskResult::Idle));
}

#[test]
fn api_key_is_kept_per_instance() {
    let mut a = Sonarr::new("a", "http://a", "first");
    let mut b = Sonarr::new("b", "http://b", "second");
    initialize_api_key(&mut a, "rotated".to_string());
    assert_eq!(a.api_key, "rotated");
    assert_eq!(b.api_key, "second");
    initialize_api_key(&mut b, "other".to_string());
    assert_eq!(a.api_key, "rotated");
    assert_eq!(b.api_key, "other");
}

#[test]
fn provider_error_description() {
    let e = ProviderError::new(Provider::Sonarr, ProviderErrorKind::GetError, "boom");
    assert_eq!(
        e.describe(),
        "There was an error while getting information from Sonarr: boom"
    );
    let e = ProviderError::new(Provider::Plex, ProviderErrorKind::ParseError, "bad json");
    assert_eq!(e.describe(), "There was an error while parsing Plex data: bad json");
}

#[test]
fn decimal_rendering() {
    assert_eq!(u128_to_string(0), "0");
    assert_eq!(u128_to_string(42), "42");
    assert_eq!(u128_to_string(1000), "1000");
    assert_eq!(i128_to_string(-7), "-7");
    assert_eq!(i128_to_string(i128::MIN), "-170141183460469231731687303715884105728");
    assert_eq!(i128_to_string(i128::MAX), "170141183460469231731687303715884105727");
}

#[test]
fn sxe_rendering() {
    assert_eq!(sxe_string(1, 1), "S01E01");
    assert_eq!(sxe_string(12, 7), "S12E07");
    assert_eq!(sxe_string(0, 103), "S00E103");
}

#[test]
fn calendar_window_offsets() {
    let (days, range) = homers::providers::sonarr::today_window();
    assert_eq!(days.back, 0);
    assert_eq!(days.forward, 1);
    let (start, end) = range.expect("today is always inside the calendar range");
    assert_eq!(start.len(), 10);
    assert_eq!(end.len(), 10);
    assert_ne!(start, end);

    let (days, range) = homers::providers::sonarr::missing_window();
    assert_eq!(days.back, 7);
    assert_eq!(days.forward, 0);
    let (start, end) = range.expect("last week is always inside the calendar range");
    assert_eq!(start.len(), 10);
    assert_ne!(start, end);
}

#[test]
fn count_parsing() {
    assert_eq!(parse_count("70"), 70);
    assert_eq!(parse_count("85.5"), 85);
    assert_eq!(parse_count(""), 0);
    assert_eq!(parse_count("n/a"), 0);
    assert_eq!(parse_count("007"), 7);
    assert_eq!(parse_count("999999999999999999999"), 0);
}

#[test]
fn string_utilities() {
    assert!(str_eq("abc", "abc"));
    assert!(!str_eq("abc", "abd"));
    assert!(str_contains("application/openmetrics-text", "openmetrics-text"));
    assert!(!str_contains("text/plain", "openmetrics-text"));
    assert!(str_contains("anything", ""));
}
