use taskboard::api_response::ApiError;
use taskboard::api_response::ApiResponse;
use taskboard::api_response::ErrorResponse;
use taskboard::config::Config;

#[test]
fn address_formats_host_and_port() {
    let c = Config { host: "127.0.0.1".to_string(), port: 8080 };
    assert!(c.address() == "127.0.0.1:8080");
}

#[test]
fn address_port_edges() {
    let low = Config { host: "localhost".to_string(), port: 0 };
    assert!(low.address() == "localhost:0");
    let high = Config { host: "0.0.0.0".to_string(), port: 65535 };
    assert!(high.address() == "0.0.0.0:65535");
}

#[test]
fn response_success_shape() {
    let r = ApiResponse::success(7u32);
    assert!(r.success);
    assert!(r.data == Some(7u32));
    assert!(r.error.is_none());
}

#[test]
fn response_error_shape() {
    let e = ApiError::bad_request("nope").to_error_response();
    let r: ApiResponse<u32> = ApiResponse::error(e);
    assert!(!r.success);
    assert!(r.data.is_none());
    let held: &ErrorResponse = r.error.as_ref().unwrap();
    assert!(held.code == "BAD_REQUEST");
    assert!(held.message == "nope");
    assert!(held.details.is_none());
}

#[test]
fn not_found_response_names_resource() {
    let e = ApiError::not_found("Project");
    let r = e.to_error_response();
    assert!(r.code == "NOT_FOUND");
    assert!(r.message == "Resource not found: Project");
    assert!(r.details.is_none());
}

#[test]
fn validation_error_response() {
    let e = ApiError::validation_error("Project name cannot be empty");
    let r = e.to_error_response();
    assert!(r.code == "VALIDATION_ERROR");
    assert!(r.message == "Project name cannot be empty");
}

#[test]
fn repository_error_response() {
    let e = ApiError::repository_error("lock poisoned");
    let r = e.to_error_response();
    assert!(r.code == "REPOSITORY_ERROR");
    assert!(r.message == "lock poisoned");
}

#[test]
fn conflict_error_response() {
    let e = ApiError::conflict("already exists");
    let r = e.to_error_response();
    assert!(r.code == "CONFLICT");
    assert!(r.message == "already exists");
}

#[test]
fn internal_error_response() {
    let e = ApiError::InternalServerError;
    let r = e.to_error_response();
    assert!(r.code == "INTERNAL_SERVER_ERROR");
    assert!(r.message == "An internal server error occurred");
}

#[test]
fn error_from_string_is_repository_error() {
    let e = ApiError::from("lock poisoned".to_string());
    match e {
        ApiError::RepositoryError { message } => assert!(message == "lock poisoned"),
        _ => panic!("expected RepositoryError"),
    }
}

#[test]
fn fresh_project_record() {
    let p = taskboard::project::Project::new("Website".to_string(), Some("docs".to_string()));
    assert!(p.name == "Website");
    assert!(p.description.as_deref() == Some("docs"));
    assert!(p.created_at == p.updated_at);
    assert!(p.created_at >= 0);
}

#[test]
fn fresh_task_record() {
    let t = taskboard::task::Task::new(42, "Design".to_string(), None);
    assert!(t.project_id == 42);
    assert!(t.title == "Design");
    assert!(t.description.is_none());
    assert!(!t.done);
    assert!(t.created_at == t.updated_at);
}
