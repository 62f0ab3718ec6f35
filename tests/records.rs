use statusforge_backend::auth::get_user_id;
use statusforge_backend::client::{create_client_with_secret, ClientError};
use statusforge_backend::config::Config;
use statusforge_backend::logs::{ingest_log, list_logs, validate_log, CreateLog, ListLogsQuery};
use statusforge_backend::organizations::{
    create_organization, delete_organization, get_organization, list_organizations,
    update_organization, validate_create_organization, validate_update_organization,
    CreateOrganization, UpdateOrganization,
};
use statusforge_backend::projects::{
    create_project, delete_project, get_project, list_projects, update_project,
    validate_create_project, validate_update_project, CreateProject, UpdateProject,
};
use statusforge_backend::ApiError;

fn log(level: &str, message: &str) -> CreateLog {
    CreateLog {
        level: level.to_string(),
        message: message.to_string(),
        context: None,
        trace_id: None,
        source: None,
        environment: None,
    }
}

#[test]
fn test_create_organization_validates_empty_name() {
    let data = CreateOrganization { name: "   ".to_string() };
    let result = validate_create_organization(&data);
    assert!(matches!(result, Err(ApiError::BadRequest(_))));
}

#[test]
fn test_create_organization_validates_empty_string() {
    let data = CreateOrganization { name: "".to_string() };
    let result = validate_create_organization(&data);
    assert!(matches!(result, Err(ApiError::BadRequest(_))));
}

#[test]
fn test_create_organization_validates_whitespace_only() {
    let data = CreateOrganization { name: "\t\n  \r".to_string() };
    let result = validate_create_organization(&data);
    assert!(matches!(result, Err(ApiError::BadRequest(_))));
}

#[test]
fn test_update_organization_validates_empty_name() {
    let data = UpdateOrganization { name: Some("   ".to_string()) };
    let result = validate_update_organization(&data);
    assert_eq!(result, Err(ApiError::BadRequest("Organization name cannot be empty".to_string())));
}

#[test]
fn organization_names_with_text_pass() {
    assert!(validate_create_organization(&CreateOrganization { name: " Acme ".to_string() }).is_ok());
    assert!(validate_update_organization(&UpdateOrganization { name: None }).is_ok());
}

#[test]
fn test_create_project_validates_empty_name() {
    let data = CreateProject { name: "   ".to_string(), description: None };
    let result = validate_create_project(&data);
    assert!(matches!(result, Err(ApiError::BadRequest(_))));
}

#[test]
fn test_create_project_validates_empty_string() {
    let data = CreateProject { name: "".to_string(), description: None };
    let result = validate_create_project(&data);
    assert!(matches!(result, Err(ApiError::BadRequest(_))));
}

#[test]
fn test_create_project_validates_whitespace_only() {
    let data = CreateProject { name: "\t\n  \r".to_string(), description: None };
    let result = validate_create_project(&data);
    assert!(matches!(result, Err(ApiError::BadRequest(_))));
}

#[test]
fn test_update_project_validates_empty_name() {
    let data = UpdateProject { name: Some("   ".to_string()), description: None };
    let result = validate_update_project(&data);
    assert_eq!(result, Err(ApiError::BadRequest("Project name cannot be empty".to_string())));
}

#[test]
fn project_names_with_text_pass() {
    let data = CreateProject {
        name: "Valid Project".to_string(),
        description: Some("Project description".to_string()),
    };
    assert!(validate_create_project(&data).is_ok());
    let data = UpdateProject { name: None, description: Some("Updated description".to_string()) };
    assert!(validate_update_project(&data).is_ok());
}

#[test]
fn test_ingest_log_validates_empty_message() {
    let result = validate_log(&log("info", "   "));
    assert_eq!(result, Err(ApiError::BadRequest("Message cannot be empty".to_string())));
}

#[test]
fn test_ingest_log_validates_invalid_level() {
    let result = validate_log(&log("invalid", "Test message"));
    assert_eq!(
        result,
        Err(ApiError::BadRequest(
            "Invalid level: invalid. Must be one of: [\"debug\", \"info\", \"warn\", \"error\", \"fatal\"]"
                .to_string()
        ))
    );
}

#[test]
fn test_ingest_log_accepts_valid_levels() {
    for level in ["debug", "info", "warn", "error", "fatal"] {
        assert!(validate_log(&log(level, "Test message")).is_ok());
    }
}

#[test]
fn test_get_user_id_with_valid_query() {
    let result = get_user_id(Some("test-user-123".to_string()));
    assert!(result.is_ok());
    assert_eq!(result.unwrap(), "test-user-123");
}

#[test]
fn test_get_user_id_without_query() {
    let result = get_user_id(None);
    assert!(matches!(result, Err(ApiError::BadRequest(_))));
}

#[test]
fn test_get_user_id_error_message() {
    let result = get_user_id(None);
    if let Err(ApiError::BadRequest(msg)) = result {
        assert!(msg.contains("user_id"));
    } else {
        panic!("Expected BadRequest error");
    }
}

#[test]
fn secret_client_needs_the_secret_key() {
    let mut config = Config {
        port: 3001,
        supabase_url: "http://localhost".to_string(),
        supabase_publishable_key: "test".to_string(),
        supabase_secret_key: None,
    };
    assert_eq!(create_client_with_secret(&config).unwrap_err(), ClientError::MissingSecretKey);
    config.supabase_secret_key = Some("secret".to_string());
    let client = create_client_with_secret(&config).unwrap();
    assert_eq!(client.service_role_key, Some("secret".to_string()));
    assert_eq!(client.url, "http://localhost");
}

#[test]
fn test_get_user_id_with_none_user_id() {
    let user_id: Option<String> = None;
    let result = get_user_id(user_id);
    assert!(matches!(result, Err(ApiError::BadRequest(_))));
}

fn new_state() -> statusforge_backend::AppState {
    let config = Config {
        port: 3001,
        supabase_url: "http://localhost".to_string(),
        supabase_publishable_key: "test".to_string(),
        supabase_secret_key: None,
    };
    statusforge_backend::AppState::new(statusforge_backend::client::create_client(&config))
}

#[test]
fn organization_lifecycle() {
    let mut state = new_state();
    let blank = create_organization(&mut state, CreateOrganization { name: " ".to_string() }, "u1", 1);
    assert_eq!(blank.unwrap_err(), ApiError::BadRequest("Organization name cannot be empty".to_string()));
    let org = create_organization(&mut state, CreateOrganization { name: "Acme Inc".to_string() }, "u1", 5)
        .unwrap();
    assert_eq!(org.name, "Acme Inc");
    assert_eq!(org.created_by, "u1");
    assert_eq!(org.created_at, 5);
    assert!(org.slug.starts_with("acme-inc-"));
    assert_eq!(org.slug.len(), "acme-inc-".len() + 8);
    assert_eq!(list_organizations(&state, "u1").unwrap().len(), 1);
    let renamed = update_organization(
        &mut state,
        &org.id,
        UpdateOrganization { name: Some("Acme".to_string()) },
        9,
    )
    .unwrap();
    assert_eq!(renamed.name, "Acme");
    assert_eq!(renamed.slug, org.slug);
    assert_eq!(renamed.updated_at, 9);
    assert_eq!(get_organization(&state, &org.id).unwrap().name, "Acme");
    delete_organization(&mut state, &org.id).unwrap();
    assert_eq!(get_organization(&state, &org.id).unwrap_err(), ApiError::NotFound);
    assert_eq!(delete_organization(&mut state, &org.id).unwrap_err(), ApiError::NotFound);
}

#[test]
fn project_lifecycle() {
    let mut state = new_state();
    let p = create_project(
        &mut state,
        "org-1",
        CreateProject { name: "Status Page".to_string(), description: Some("d".to_string()) },
        "u1",
        3,
    )
    .unwrap();
    create_project(&mut state, "org-2", CreateProject { name: "Other".to_string(), description: None }, "u1", 4)
        .unwrap();
    assert!(p.slug.starts_with("status-page-"));
    assert_eq!(p.description, Some("d".to_string()));
    let listed = list_projects(&state, "org-1").unwrap();
    assert_eq!(listed.len(), 1);
    assert_eq!(listed[0].id, p.id);
    let u = update_project(
        &mut state,
        &p.id,
        UpdateProject { name: None, description: Some("new".to_string()) },
        8,
    )
    .unwrap();
    assert_eq!(u.name, "Status Page");
    assert_eq!(u.description, Some("new".to_string()));
    let missing = update_project(&mut state, "nope", UpdateProject { name: None, description: None }, 8);
    assert_eq!(missing.unwrap_err(), ApiError::NotFound);
    delete_project(&mut state, &p.id).unwrap();
    assert_eq!(get_project(&state, &p.id).unwrap_err(), ApiError::NotFound);
}

#[test]
fn logs_are_listed_newest_first_with_filters() {
    let mut state = new_state();
    for (i, level) in ["info", "error", "error", "warn"].iter().enumerate() {
        let mut entry = log(level, "something happened");
        if i == 2 {
            entry.trace_id = Some("trace-123".to_string());
        }
        ingest_log(&mut state, "project-id", entry, 10 + i as u64).unwrap();
    }
    ingest_log(&mut state, "other", log("error", "elsewhere"), 20).unwrap();
    let all = ListLogsQuery { level: None, trace_id: None, source: None, environment: None, limit: None, offset: None };
    let listed = list_logs(&state, "project-id", &all).unwrap();
    assert_eq!(listed.iter().map(|l| l.created_at).collect::<Vec<_>>(), vec![13, 12, 11, 10]);
    let errors = ListLogsQuery { level: Some("error".to_string()), ..all.clone() };
    assert_eq!(list_logs(&state, "project-id", &errors).unwrap().len(), 2);
    let traced = ListLogsQuery { trace_id: Some("trace-123".to_string()), ..all.clone() };
    let found = list_logs(&state, "project-id", &traced).unwrap();
    assert_eq!(found.len(), 1);
    assert_eq!(found[0].created_at, 12);
    let paged = ListLogsQuery { limit: Some(2), offset: Some(1), ..all.clone() };
    assert_eq!(
        list_logs(&state, "project-id", &paged).unwrap().iter().map(|l| l.created_at).collect::<Vec<_>>(),
        vec![12, 11]
    );
    let bad = ingest_log(&mut state, "project-id", log("loud", "x"), 30);
    assert!(matches!(bad, Err(ApiError::BadRequest(_))));
}

#[test]
fn log_context_survives_listing() {
    let mut state = new_state();
    let mut context = serde_json::Map::new();
    context.insert("key".to_string(), serde_json::Value::String("value".to_string()));
    let mut entry = log("error", "Error message");
    entry.context = Some(serde_json::Value::Object(context.clone()));
    ingest_log(&mut state, "project-123", entry, 1).unwrap();
    let all = ListLogsQuery { level: None, trace_id: None, source: None, environment: None, limit: None, offset: None };
    let listed = list_logs(&state, "project-123", &all).unwrap();
    assert_eq!(listed[0].context, Some(serde_json::Value::Object(context)));
}
