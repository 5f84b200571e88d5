use taskboard::api_response::ApiError;
use taskboard::project::ProjectCreate;
use taskboard::shared::SharedServices;
use taskboard::task::TaskCreate;
use taskboard::task::TaskUpdate;

#[test]
fn shared_create_and_read_back() {
    let shared = SharedServices::new();
    let p = shared
        .create_project(ProjectCreate { name: "Website".to_string(), description: None })
        .unwrap();
    let g = shared.get_project(p.id).unwrap();
    assert!(g.id == p.id && g.name == "Website");
    let t = shared
        .create_task(TaskCreate { project_id: p.id, title: "Design".to_string(), description: None })
        .unwrap();
    assert!(shared.get_task(t.id).unwrap().title == "Design");
    assert_eq!(shared.list_projects().unwrap().len(), 1);
    assert_eq!(shared.list_tasks().unwrap().len(), 1);
}

#[test]
fn shared_cascade_then_delete() {
    let shared = SharedServices::new();
    let p = shared
        .create_project(ProjectCreate { name: "Website".to_string(), description: None })
        .unwrap();
    for i in 0..4 {
        shared
            .create_task(TaskCreate {
                project_id: p.id,
                title: format!("Step {}", i),
                description: None,
            })
            .unwrap();
    }
    assert_eq!(shared.delete_tasks_by_project(p.id).unwrap(), 4);
    shared.delete_project(p.id).unwrap();
    assert!(matches!(shared.get_project(p.id), Err(ApiError::NotFound { .. })));
    assert!(shared.list_tasks().unwrap().is_empty());
}

#[test]
fn shared_rejects_bad_input() {
    let shared = SharedServices::new();
    assert!(matches!(
        shared.create_project(ProjectCreate { name: " ".to_string(), description: None }),
        Err(ApiError::ValidationError { .. })
    ));
    let missing = uuid::Uuid::new_v4().as_u128();
    assert!(matches!(
        shared.create_task(TaskCreate {
            project_id: missing,
            title: "Design".to_string(),
            description: None,
        }),
        Err(ApiError::NotFound { .. })
    ));
    assert!(matches!(
        shared.update_task(
            missing,
            TaskUpdate { title: None, description: None, done: Some(true) },
        ),
        Err(ApiError::NotFound { .. })
    ));
}
