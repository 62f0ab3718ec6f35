use statusforge_backend::client::create_client;
use statusforge_backend::config::Config;
use statusforge_backend::monitors::{
    CreateMonitor, CreateMonitorResult, ListMonitorResultsQuery, UpdateMonitor,
};
use statusforge_backend::service;
use statusforge_backend::{ApiError, AppState};

fn new_state() -> AppState {
    let config = Config {
        port: 3001,
        supabase_url: "http://localhost".to_string(),
        supabase_publishable_key: "test".to_string(),
        supabase_secret_key: None,
    };
    AppState::new(create_client(&config))
}

fn monitor_input(kind: &str, interval: Option<i32>) -> CreateMonitor {
    CreateMonitor {
        name: "Test Monitor".to_string(),
        kind: kind.to_string(),
        url: "https://example.com".to_string(),
        keyword: None,
        interval_seconds: interval,
        enabled: Some(true),
    }
}

fn result_input(region: &str, status: &str) -> CreateMonitorResult {
    CreateMonitorResult {
        region: region.to_string(),
        status: status.to_string(),
        response_time_ms: None,
        http_status: None,
        ssl_valid: None,
        ssl_expires_at: None,
        error_message: None,
    }
}

fn bad_request_message<T: std::fmt::Debug>(r: Result<T, ApiError>) -> String {
    match r {
        Err(ApiError::BadRequest(msg)) => msg,
        other => panic!("Expected BadRequest error, got {:?}", other),
    }
}

#[test]
fn test_create_monitor_validation() {
    let mut state = new_state();
    let invalid_kind = CreateMonitor {
        name: "Test Monitor".to_string(),
        kind: "invalid".to_string(),
        url: "https://example.com".to_string(),
        keyword: None,
        interval_seconds: Some(300),
        enabled: Some(true),
    };
    let result = service::create_monitor(&mut state, "test-project-id", invalid_kind, 1000);
    assert!(result.is_err());
    if let Err(ApiError::BadRequest(msg)) = result {
        assert!(msg.contains("Invalid kind"));
    } else {
        panic!("Expected BadRequest error");
    }
}

#[test]
fn test_create_monitor_empty_name() {
    let mut state = new_state();
    let empty_name = CreateMonitor {
        name: "   ".to_string(),
        kind: "http".to_string(),
        url: "https://example.com".to_string(),
        keyword: None,
        interval_seconds: Some(300),
        enabled: Some(true),
    };
    let result = service::create_monitor(&mut state, "test-project-id", empty_name, 1000);
    assert!(result.is_err());
    if let Err(ApiError::BadRequest(msg)) = result {
        assert!(msg.contains("name cannot be empty"));
    } else {
        panic!("Expected BadRequest error");
    }
}

#[test]
fn test_create_monitor_empty_url() {
    let mut state = new_state();
    let empty_url = CreateMonitor {
        name: "Test Monitor".to_string(),
        kind: "http".to_string(),
        url: "   ".to_string(),
        keyword: None,
        interval_seconds: Some(300),
        enabled: Some(true),
    };
    let result = service::create_monitor(&mut state, "test-project-id", empty_url, 1000);
    assert!(result.is_err());
    if let Err(ApiError::BadRequest(msg)) = result {
        assert!(msg.contains("URL cannot be empty"));
    } else {
        panic!("Expected BadRequest error");
    }
}

#[test]
fn test_create_monitor_keyword_required() {
    let mut state = new_state();
    let keyword_monitor = CreateMonitor {
        name: "Test Monitor".to_string(),
        kind: "keyword".to_string(),
        url: "https://example.com".to_string(),
        keyword: None,
        interval_seconds: Some(300),
        enabled: Some(true),
    };
    let result = service::create_monitor(&mut state, "test-project-id", keyword_monitor, 1000);
    assert!(result.is_err());
    if let Err(ApiError::BadRequest(msg)) = result {
        assert!(msg.contains("Keyword is required"));
    } else {
        panic!("Expected BadRequest error");
    }
}

#[test]
fn test_create_monitor_interval_too_low() {
    let mut state = new_state();
    let low_interval = CreateMonitor {
        name: "Test Monitor".to_string(),
        kind: "http".to_string(),
        url: "https://example.com".to_string(),
        keyword: None,
        interval_seconds: Some(30),
        enabled: Some(true),
    };
    let result = service::create_monitor(&mut state, "test-project-id", low_interval, 1000);
    assert!(result.is_err());
    if let Err(ApiError::BadRequest(msg)) = result {
        assert!(msg.contains("at least 60 seconds"));
    } else {
        panic!("Expected BadRequest error");
    }
}

#[test]
fn test_update_monitor_validation() {
    let mut state = new_state();
    let invalid_kind = UpdateMonitor {
        name: None,
        kind: Some("invalid".to_string()),
        url: None,
        keyword: None,
        interval_seconds: None,
        enabled: None,
    };
    let result = service::update_monitor(&mut state, "test-id", invalid_kind, 1000);
    assert!(result.is_err());
    if let Err(ApiError::BadRequest(msg)) = result {
        assert!(msg.contains("Invalid kind"));
    } else {
        panic!("Expected BadRequest error");
    }
}

#[test]
fn test_create_monitor_result_validation() {
    let mut state = new_state();
    let invalid_region = result_input("INVALID", "up");
    let result = service::create_monitor_result(&mut state, "test-monitor-id", invalid_region, 1000);
    assert!(result.is_err());
    if let Err(ApiError::BadRequest(msg)) = result {
        assert!(msg.contains("Invalid region"));
    } else {
        panic!("Expected BadRequest error");
    }

    let invalid_status = result_input("EU", "invalid");
    let result = service::create_monitor_result(&mut state, "test-monitor-id", invalid_status, 1000);
    assert!(result.is_err());
    if let Err(ApiError::BadRequest(msg)) = result {
        assert!(msg.contains("Invalid status"));
    } else {
        panic!("Expected BadRequest error");
    }
}

#[test]
fn create_monitor_messages_are_exact() {
    let mut state = new_state();
    let msg = bad_request_message(service::create_monitor(
        &mut state,
        "p",
        monitor_input("ftp", None),
        0,
    ));
    assert_eq!(
        msg,
        "Invalid kind: ftp. Must be one of: [\"http\", \"https\", \"ssl\", \"keyword\"]"
    );
    let msg = bad_request_message(service::create_monitor(
        &mut state,
        "p",
        monitor_input("http", Some(59)),
        0,
    ));
    assert_eq!(msg, "Interval must be at least 60 seconds");
}

#[test]
fn keyword_monitor_without_keyword_fails_for_any_interval() {
    let mut state = new_state();
    for interval in [None, Some(60), Some(3600)] {
        let r = service::create_monitor(&mut state, "p", monitor_input("keyword", interval), 0);
        assert_eq!(bad_request_message(r), "Keyword is required for keyword monitoring");
    }
    let mut with_keyword = monitor_input("keyword", None);
    with_keyword.keyword = Some("Welcome".to_string());
    let m = service::create_monitor(&mut state, "p", with_keyword, 0).unwrap();
    assert_eq!(m.keyword, Some("Welcome".to_string()));
}

#[test]
fn interval_floor_is_sixty_seconds() {
    let mut state = new_state();
    for interval in [59, 0, -5, i32::MIN] {
        let r = service::create_monitor(&mut state, "p", monitor_input("http", Some(interval)), 0);
        assert_eq!(bad_request_message(r), "Interval must be at least 60 seconds");
    }
    let m = service::create_monitor(&mut state, "p", monitor_input("http", Some(60)), 0).unwrap();
    assert_eq!(m.interval_seconds, 60);
    let m = service::create_monitor(&mut state, "p", monitor_input("https", None), 0).unwrap();
    assert_eq!(m.interval_seconds, 300);
}

#[test]
fn blank_name_or_url_is_refused() {
    let mut state = new_state();
    for blank in ["", " ", "\t\n  \r", "\u{3000}"] {
        let mut d = monitor_input("http", None);
        d.name = blank.to_string();
        let r = service::create_monitor(&mut state, "p", d, 0);
        assert_eq!(bad_request_message(r), "Monitor name cannot be empty");
        let mut d = monitor_input("http", None);
        d.url = blank.to_string();
        let r = service::create_monitor(&mut state, "p", d, 0);
        assert_eq!(bad_request_message(r), "Monitor URL cannot be empty");
    }
}

#[test]
fn all_nine_region_status_pairs_are_stored() {
    let mut state = new_state();
    let m = service::create_monitor(&mut state, "p", monitor_input("http", None), 0).unwrap();
    let mut stored = 0;
    for region in ["EU", "US", "ASIA"] {
        for status in ["up", "down", "degraded"] {
            let r = service::create_monitor_result(&mut state, &m.id, result_input(region, status), 5)
                .unwrap();
            assert_eq!(r.region, region);
            assert_eq!(r.status, status);
            stored += 1;
        }
    }
    assert_eq!(stored, 9);
    let msg = bad_request_message(service::create_monitor_result(
        &mut state,
        &m.id,
        result_input("eu", "up"),
        5,
    ));
    assert_eq!(msg, "Invalid region: eu. Must be one of: [\"EU\", \"US\", \"ASIA\"]");
    let msg = bad_request_message(service::create_monitor_result(
        &mut state,
        &m.id,
        result_input("US", "UP"),
        5,
    ));
    assert_eq!(msg, "Invalid status: UP. Must be one of: [\"up\", \"down\", \"degraded\"]");
}

#[test]
fn result_for_unknown_monitor_is_not_found() {
    let mut state = new_state();
    let r = service::create_monitor_result(&mut state, "nope", result_input("EU", "up"), 5);
    assert_eq!(r.unwrap_err(), ApiError::NotFound);
}

#[test]
fn disabled_monitor_check_fails_for_every_region() {
    let mut state = new_state();
    let mut d = monitor_input("http", None);
    d.enabled = Some(false);
    let m = service::create_monitor(&mut state, "p", d, 0).unwrap();
    for region in [None, Some("EU"), Some("US"), Some("ASIA"), Some("MARS")] {
        let r = service::start_monitor_check(&state, &m.id, region);
        assert_eq!(bad_request_message(r), "Monitor is disabled");
    }
}

#[test]
fn check_defaults_to_eu() {
    let mut state = new_state();
    let m = service::create_monitor(&mut state, "p", monitor_input("http", None), 0).unwrap();
    let req = service::start_monitor_check(&state, &m.id, None).unwrap();
    assert_eq!(req.region, "EU");
    assert_eq!(req.monitor_id, m.id);
    assert_eq!(req.project_id, "p");
    assert_eq!(req.url, "https://example.com");
    let echoed = result_input(&req.region, "up");
    let r = service::finish_monitor_check(&mut state, &m.id, Some(echoed), 10).unwrap();
    assert_eq!(r.region, "EU");
}

#[test]
fn check_refuses_unknown_region_and_monitor() {
    let mut state = new_state();
    let m = service::create_monitor(&mut state, "p", monitor_input("http", None), 0).unwrap();
    let r = service::start_monitor_check(&state, &m.id, Some("MARS"));
    assert_eq!(
        bad_request_message(r),
        "Invalid region: MARS. Must be one of: [\"EU\", \"US\", \"ASIA\"]"
    );
    let r = service::start_monitor_check(&state, "missing", Some("EU"));
    assert_eq!(r.unwrap_err(), ApiError::NotFound);
}

#[test]
fn failed_probe_and_bad_prober_answers_store_nothing() {
    let mut state = new_state();
    let m = service::create_monitor(&mut state, "p", monitor_input("http", None), 0).unwrap();
    let r = service::finish_monitor_check(&mut state, &m.id, None, 10);
    assert_eq!(r.unwrap_err(), ApiError::InternalServerError);
    let r = service::finish_monitor_check(&mut state, &m.id, Some(result_input("EU", "sideways")), 10);
    assert!(matches!(r, Err(ApiError::BadRequest(_))));
    let q = ListMonitorResultsQuery { region: None, status: None, limit: None, offset: None };
    assert!(service::list_monitor_results(&state, &m.id, &q).unwrap().is_empty());
}

#[test]
fn listing_limits_and_order() {
    let mut state = new_state();
    let m = service::create_monitor(&mut state, "p", monitor_input("http", None), 0).unwrap();
    for t in 0..150u64 {
        service::create_monitor_result(&mut state, &m.id, result_input("EU", "up"), 1000 + t).unwrap();
    }
    let q = ListMonitorResultsQuery { region: None, status: None, limit: Some(500), offset: None };
    let page = service::list_monitor_results(&state, &m.id, &q).unwrap();
    assert_eq!(page.len(), 100);
    assert_eq!(page[0].created_at, 1149);
    assert!(page.windows(2).all(|w| w[0].created_at > w[1].created_at));
    let q = ListMonitorResultsQuery { region: None, status: None, limit: None, offset: None };
    let page = service::list_monitor_results(&state, &m.id, &q).unwrap();
    assert_eq!(page.len(), 50);
    let q = ListMonitorResultsQuery { region: None, status: None, limit: Some(10), offset: Some(145) };
    let page = service::list_monitor_results(&state, &m.id, &q).unwrap();
    assert_eq!(page.len(), 5);
    assert_eq!(page[0].created_at, 1004);
    assert_eq!(page[4].created_at, 1000);
    let q = ListMonitorResultsQuery { region: None, status: None, limit: Some(10), offset: Some(u32::MAX) };
    assert!(service::list_monitor_results(&state, &m.id, &q).unwrap().is_empty());
}

#[test]
fn listing_filters_by_region_and_status() {
    let mut state = new_state();
    let a = service::create_monitor(&mut state, "p", monitor_input("http", None), 0).unwrap();
    let b = service::create_monitor(&mut state, "p", monitor_input("ssl", None), 0).unwrap();
    service::create_monitor_result(&mut state, &a.id, result_input("EU", "up"), 1).unwrap();
    service::create_monitor_result(&mut state, &a.id, result_input("US", "down"), 2).unwrap();
    service::create_monitor_result(&mut state, &a.id, result_input("US", "up"), 3).unwrap();
    service::create_monitor_result(&mut state, &b.id, result_input("US", "up"), 4).unwrap();
    let q = ListMonitorResultsQuery {
        region: Some("US".to_string()),
        status: Some("up".to_string()),
        limit: None,
        offset: None,
    };
    let page = service::list_monitor_results(&state, &a.id, &q).unwrap();
    assert_eq!(page.len(), 1);
    assert_eq!(page[0].created_at, 3);
    let q = ListMonitorResultsQuery { region: Some("US".to_string()), status: None, limit: None, offset: None };
    let page = service::list_monitor_results(&state, &a.id, &q).unwrap();
    assert_eq!(page.iter().map(|r| r.created_at).collect::<Vec<_>>(), vec![3, 2]);
}

#[test]
fn created_at_never_goes_back() {
    let mut state = new_state();
    let m = service::create_monitor(&mut state, "p", monitor_input("http", None), 0).unwrap();
    let r1 = service::create_monitor_result(&mut state, &m.id, result_input("EU", "up"), 500).unwrap();
    let r2 = service::create_monitor_result(&mut state, &m.id, result_input("EU", "up"), 100).unwrap();
    assert_eq!(r1.created_at, 500);
    assert_eq!(r2.created_at, 500);
    let q = ListMonitorResultsQuery { region: None, status: None, limit: None, offset: None };
    let page = service::list_monitor_results(&state, &m.id, &q).unwrap();
    assert_eq!(page[0].id, r2.id);
    assert_eq!(page[1].id, r1.id);
}

#[test]
fn disabling_keeps_other_fields() {
    let mut state = new_state();
    let created = service::create_monitor(&mut state, "p", monitor_input("https", Some(90)), 0).unwrap();
    let only_disable = UpdateMonitor {
        name: None,
        kind: None,
        url: None,
        keyword: None,
        interval_seconds: None,
        enabled: Some(false),
    };
    let updated = service::update_monitor(&mut state, &created.id, only_disable, 77).unwrap();
    assert_eq!(updated.name, created.name);
    assert_eq!(updated.kind, created.kind);
    assert_eq!(updated.url, created.url);
    assert_eq!(updated.interval_seconds, 90);
    assert!(!updated.enabled);
    assert_eq!(updated.updated_at, 77);
    let stored = service::get_monitor(&state, &created.id).unwrap();
    assert!(!stored.enabled);
}

#[test]
fn keyword_update_sets_clears_and_guards() {
    let mut state = new_state();
    let created = service::create_monitor(&mut state, "p", monitor_input("http", None), 0).unwrap();
    let to_keyword = UpdateMonitor {
        name: None,
        kind: Some("keyword".to_string()),
        url: None,
        keyword: None,
        interval_seconds: None,
        enabled: None,
    };
    let r = service::update_monitor(&mut state, &created.id, to_keyword, 1);
    assert_eq!(bad_request_message(r), "Keyword is required for keyword monitoring");
    let with_keyword = UpdateMonitor {
        name: None,
        kind: Some("keyword".to_string()),
        url: None,
        keyword: Some(Some("hello".to_string())),
        interval_seconds: None,
        enabled: None,
    };
    let m = service::update_monitor(&mut state, &created.id, with_keyword, 2).unwrap();
    assert_eq!(m.keyword, Some("hello".to_string()));
    let back_to_http = UpdateMonitor {
        name: Some("Renamed".to_string()),
        kind: Some("http".to_string()),
        url: None,
        keyword: Some(None),
        interval_seconds: Some(60),
        enabled: None,
    };
    let m = service::update_monitor(&mut state, &created.id, back_to_http, 3).unwrap();
    assert_eq!(m.keyword, None);
    assert_eq!(m.name, "Renamed");
    assert_eq!(m.interval_seconds, 60);
    let missing = UpdateMonitor {
        name: None,
        kind: None,
        url: None,
        keyword: None,
        interval_seconds: None,
        enabled: Some(true),
    };
    assert_eq!(service::update_monitor(&mut state, "nope", missing, 4).unwrap_err(), ApiError::NotFound);
}

#[test]
fn list_get_and_delete_monitors() {
    let mut state = new_state();
    let a = service::create_monitor(&mut state, "proj-a", monitor_input("http", None), 0).unwrap();
    let b = service::create_monitor(&mut state, "proj-b", monitor_input("http", None), 0).unwrap();
    let c = service::create_monitor(&mut state, "proj-a", monitor_input("ssl", None), 0).unwrap();
    let listed = service::list_monitors(&state, "proj-a").unwrap();
    assert_eq!(listed.iter().map(|m| m.id.clone()).collect::<Vec<_>>(), vec![a.id.clone(), c.id.clone()]);
    service::create_monitor_result(&mut state, &a.id, result_input("EU", "up"), 1).unwrap();
    service::create_monitor_result(&mut state, &b.id, result_input("EU", "up"), 2).unwrap();
    service::delete_monitor(&mut state, &a.id).unwrap();
    assert_eq!(service::get_monitor(&state, &a.id).unwrap_err(), ApiError::NotFound);
    assert_eq!(service::delete_monitor(&mut state, &a.id).unwrap_err(), ApiError::NotFound);
    let q = ListMonitorResultsQuery { region: None, status: None, limit: None, offset: None };
    assert!(service::list_monitor_results(&state, &a.id, &q).unwrap().is_empty());
    assert_eq!(service::list_monitor_results(&state, &b.id, &q).unwrap().len(), 1);
    assert_eq!(service::get_monitor(&state, &b.id).unwrap().project_id, "proj-b");
}

#[test]
fn taken_identity_is_an_internal_error() {
    let mut state = new_state();
    let m = service::create_monitor_with_id(
        &mut state,
        "fixed".to_string(),
        "p",
        monitor_input("http", None),
        0,
    )
    .unwrap();
    assert_eq!(m.id, "fixed");
    let r = service::create_monitor_with_id(&mut state, "fixed".to_string(), "p", monitor_input("http", None), 0);
    assert_eq!(r.unwrap_err(), ApiError::InternalServerError);
    service::create_monitor_result_with_id(&mut state, "r1".to_string(), "fixed", result_input("EU", "up"), 0)
        .unwrap();
    let r = service::create_monitor_result_with_id(
        &mut state,
        "r1".to_string(),
        "fixed",
        result_input("EU", "up"),
        0,
    );
    assert_eq!(r.unwrap_err(), ApiError::InternalServerError);
}

#[test]
fn end_to_end_create_and_check() {
    let mut state = new_state();
    let input = CreateMonitor {
        name: "Home".to_string(),
        kind: "http".to_string(),
        url: "https://example.com".to_string(),
        keyword: None,
        interval_seconds: Some(120),
        enabled: None,
    };
    let m = service::create_monitor(&mut state, "proj", input, 1_700_000_000_000).unwrap();
    assert!(m.enabled);
    assert_eq!(m.interval_seconds, 120);
    let req = service::start_monitor_check(&state, &m.id, Some("US")).unwrap();
    assert_eq!(req.region, "US");
    assert_eq!(req.name, "Home");
    assert_eq!(req.kind, "http");
    let answer = CreateMonitorResult {
        region: "US".to_string(),
        status: "up".to_string(),
        response_time_ms: Some(42),
        http_status: None,
        ssl_valid: None,
        ssl_expires_at: None,
        error_message: None,
    };
    let r = service::finish_monitor_check(&mut state, &m.id, Some(answer), 1_700_000_000_500).unwrap();
    assert_eq!(r.region, "US");
    assert_eq!(r.status, "up");
    assert_eq!(r.response_time_ms, Some(42));
    assert_eq!(r.monitor_id, m.id);
    assert_eq!(r.id.len(), 36);
    assert_eq!(r.created_at, 1_700_000_000_500);
    let q = ListMonitorResultsQuery { region: None, status: None, limit: None, offset: None };
    let listed = service::list_monitor_results(&state, &m.id, &q).unwrap();
    assert_eq!(listed.len(), 1);
    assert_eq!(listed[0].id, r.id);
}
