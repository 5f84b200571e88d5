pub mod api_response;
pub mod config;
pub mod ids;
pub mod laws;
pub mod project;
pub mod project_repo;
pub mod project_service;
pub mod shared;
pub mod store;
pub mod task;
pub mod task_repo;
pub mod task_service;
pub mod time;
pub mod validate;
