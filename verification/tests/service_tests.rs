use taskboard::api_response::ApiError;
use taskboard::project::ProjectCreate;
use taskboard::project::ProjectUpdate;
use taskboard::project_repo::ProjectRepository;
use taskboard::project_service::ProjectService;
use taskboard::task::TaskCreate;
use taskboard::task::TaskUpdate;
use taskboard::task_repo::TaskRepository;
use taskboard::task_service::TaskService;

fn project_service() -> ProjectService {
    ProjectService::new(ProjectRepository::new())
}

fn task_service() -> TaskService {
    TaskService::new(TaskRepository::new())
}

#[test]
fn create_project_scenario() {
    let mut projects = project_service();
    let p = projects
        .create_project(ProjectCreate { name: "Website".to_string(), description: None })
        .unwrap();
    assert!(p.id != 0);
    assert!(p.name == "Website");
    assert!(p.description.is_none());
    assert!(p.created_at == p.updated_at);
}

#[test]
fn whitespace_name_rejected() {
    let mut projects = project_service();
    let r = projects.create_project(ProjectCreate {
        name: "   ".to_string(),
        description: None,
    });
    assert!(matches!(r, Err(ApiError::ValidationError { .. })));
}

#[test]
fn task_with_unknown_project_rejected() {
    let projects = project_service();
    let mut tasks = task_service();
    let missing = uuid::Uuid::new_v4().as_u128();
    let r = tasks.create_task(
        projects.repository(),
        TaskCreate { project_id: missing, title: "Design".to_string(), description: None },
    );
    match r {
        Err(ApiError::NotFound { resource }) => assert!(resource == "Project"),
        _ => panic!("expected NotFound for the missing project"),
    }
}

#[test]
fn project_task_cascade_scenario() {
    let mut projects = project_service();
    let mut tasks = task_service();
    let p = projects
        .create_project(ProjectCreate { name: "Website".to_string(), description: None })
        .unwrap();
    let t = tasks
        .create_task(
            projects.repository(),
            TaskCreate { project_id: p.id, title: "Design".to_string(), description: None },
        )
        .unwrap();
    assert!(t.project_id == p.id);
    let removed = tasks.delete_tasks_by_project(p.id).unwrap();
    assert_eq!(removed, 1);
    let removed_again = tasks.delete_tasks_by_project(p.id).unwrap();
    assert_eq!(removed_again, 0);
    projects.delete_project(p.id).unwrap();
}

#[test]
fn created_ids_distinct_and_all_listed() {
    let mut projects = project_service();
    let mut ids: Vec<u128> = Vec::new();
    for i in 0..10 {
        let p = projects
            .create_project(ProjectCreate {
                name: format!("Project {}", i),
                description: None,
            })
            .unwrap();
        ids.push(p.id);
    }
    for a in 0..ids.len() {
        for b in 0..a {
            assert!(ids[a] != ids[b]);
        }
    }
    let listed = projects.list_projects().unwrap();
    assert!(listed.len() >= 10);
    for id in &ids {
        assert!(listed.iter().any(|p| p.id == *id));
    }
}

#[test]
fn read_your_write_project() {
    let mut projects = project_service();
    let p = projects
        .create_project(ProjectCreate {
            name: "Website".to_string(),
            description: Some("landing page".to_string()),
        })
        .unwrap();
    let g = projects.get_project(p.id).unwrap();
    assert!(g.id == p.id);
    assert!(g.name == p.name);
    assert!(g.description == p.description);
    assert!(g.created_at == p.created_at);
    assert!(g.updated_at == p.updated_at);

    let u = projects
        .update_project(
            p.id,
            ProjectUpdate { name: Some("Relaunch".to_string()), description: None },
        )
        .unwrap();
    let g2 = projects.get_project(p.id).unwrap();
    assert!(g2.name == "Relaunch");
    assert!(g2.name == u.name);
    assert!(g2.description == u.description);
    assert!(g2.updated_at == u.updated_at);
}

#[test]
fn read_your_write_task() {
    let mut projects = project_service();
    let mut tasks = task_service();
    let p = projects
        .create_project(ProjectCreate { name: "Website".to_string(), description: None })
        .unwrap();
    let t = tasks
        .create_task(
            projects.repository(),
            TaskCreate {
                project_id: p.id,
                title: "Design".to_string(),
                description: Some("wireframes".to_string()),
            },
        )
        .unwrap();
    let g = tasks.get_task(t.id).unwrap();
    assert!(g.id == t.id);
    assert!(g.project_id == t.project_id);
    assert!(g.title == t.title);
    assert!(g.description == t.description);
    assert!(!g.done);
    assert!(g.created_at == t.created_at && g.updated_at == t.updated_at);
}

#[test]
fn absent_after_delete() {
    let mut projects = project_service();
    let p = projects
        .create_project(ProjectCreate { name: "Website".to_string(), description: None })
        .unwrap();
    let other = projects
        .create_project(ProjectCreate { name: "Backend".to_string(), description: None })
        .unwrap();
    projects.delete_project(p.id).unwrap();
    assert!(matches!(projects.get_project(p.id), Err(ApiError::NotFound { .. })));
    let listed = projects.list_projects().unwrap();
    assert!(listed.iter().all(|q| q.id != p.id));
    assert!(listed.iter().any(|q| q.id == other.id));
}

#[test]
fn delete_twice_not_found() {
    let mut projects = project_service();
    let p = projects
        .create_project(ProjectCreate { name: "Website".to_string(), description: None })
        .unwrap();
    projects.delete_project(p.id).unwrap();
    assert!(matches!(projects.delete_project(p.id), Err(ApiError::NotFound { .. })));
}

#[test]
fn partial_update_preserves_untouched_fields() {
    let mut projects = project_service();
    let mut tasks = task_service();
    let p = projects
        .create_project(ProjectCreate { name: "Website".to_string(), description: None })
        .unwrap();
    let t = tasks
        .create_task(
            projects.repository(),
            TaskCreate {
                project_id: p.id,
                title: "Design".to_string(),
                description: Some("wireframes".to_string()),
            },
        )
        .unwrap();
    let u = tasks
        .update_task(
            t.id,
            TaskUpdate { title: Some("Design v2".to_string()), description: None, done: None },
        )
        .unwrap();
    assert!(u.title == "Design v2");
    assert!(u.description == t.description);
    assert!(u.done == t.done);
    assert!(u.project_id == t.project_id);
    assert!(u.created_at == t.created_at);
    assert!(u.updated_at > t.updated_at);
}

#[test]
fn update_task_done_flag() {
    let mut projects = project_service();
    let mut tasks = task_service();
    let p = projects
        .create_project(ProjectCreate { name: "Website".to_string(), description: None })
        .unwrap();
    let t = tasks
        .create_task(
            projects.repository(),
            TaskCreate { project_id: p.id, title: "Design".to_string(), description: None },
        )
        .unwrap();
    let u = tasks
        .update_task(t.id, TaskUpdate { title: None, description: None, done: Some(true) })
        .unwrap();
    assert!(u.done);
    assert!(u.title == t.title);
    assert!(u.description == t.description);
}

#[test]
fn cascade_completeness() {
    let mut projects = project_service();
    let mut tasks = task_service();
    let a = projects
        .create_project(ProjectCreate { name: "Website".to_string(), description: None })
        .unwrap();
    let b = projects
        .create_project(ProjectCreate { name: "Backend".to_string(), description: None })
        .unwrap();
    for i in 0..3 {
        tasks
            .create_task(
                projects.repository(),
                TaskCreate {
                    project_id: a.id,
                    title: format!("Task {}", i),
                    description: None,
                },
            )
            .unwrap();
    }
    let keep = tasks
        .create_task(
            projects.repository(),
            TaskCreate { project_id: b.id, title: "Deploy".to_string(), description: None },
        )
        .unwrap();
    let removed = tasks.delete_tasks_by_project(a.id).unwrap();
    assert_eq!(removed, 3);
    let left = tasks.list_tasks_by_project(projects.repository(), a.id).unwrap();
    assert!(left.is_empty());
    let others = tasks.list_tasks_by_project(projects.repository(), b.id).unwrap();
    assert_eq!(others.len(), 1);
    assert!(others[0].id == keep.id);
}

#[test]
fn list_by_project_after_project_deleted() {
    let mut projects = project_service();
    let mut tasks = task_service();
    let p = projects
        .create_project(ProjectCreate { name: "Website".to_string(), description: None })
        .unwrap();
    tasks
        .create_task(
            projects.repository(),
            TaskCreate { project_id: p.id, title: "Design".to_string(), description: None },
        )
        .unwrap();
    projects.delete_project(p.id).unwrap();
    let r = tasks.list_tasks_by_project(projects.repository(), p.id);
    match r {
        Err(ApiError::NotFound { resource }) => assert!(resource == "Project"),
        _ => panic!("expected NotFound once the project is gone"),
    }
    assert_eq!(tasks.list_tasks().unwrap().len(), 1);
}

#[test]
fn name_is_stored_trimmed() {
    let mut projects = project_service();
    let p = projects
        .create_project(ProjectCreate {
            name: "  Website  ".to_string(),
            description: None,
        })
        .unwrap();
    assert!(p.name == "Website");
    let u = projects
        .update_project(
            p.id,
            ProjectUpdate { name: Some("  Relaunch  ".to_string()), description: None },
        )
        .unwrap();
    assert!(u.name == "Relaunch");
}

#[test]
fn name_length_edges() {
    let mut projects = project_service();
    let just_fits = "a".repeat(200);
    assert!(projects
        .create_project(ProjectCreate { name: just_fits, description: None })
        .is_ok());
    let too_long = "a".repeat(201);
    assert!(matches!(
        projects.create_project(ProjectCreate { name: too_long, description: None }),
        Err(ApiError::ValidationError { .. })
    ));
    let wide_but_fits = "é".repeat(200);
    assert!(projects
        .create_project(ProjectCreate { name: wide_but_fits, description: None })
        .is_ok());
}

#[test]
fn description_length_edges() {
    let mut projects = project_service();
    let just_fits = "d".repeat(1000);
    assert!(projects
        .create_project(ProjectCreate {
            name: "Website".to_string(),
            description: Some(just_fits),
        })
        .is_ok());
    let too_long = "d".repeat(1001);
    assert!(matches!(
        projects.create_project(ProjectCreate {
            name: "Website".to_string(),
            description: Some(too_long),
        }),
        Err(ApiError::ValidationError { .. })
    ));
}

#[test]
fn update_nonexistent_not_found() {
    let mut projects = project_service();
    let missing = uuid::Uuid::new_v4().as_u128();
    let r = projects.update_project(
        missing,
        ProjectUpdate { name: Some("Website".to_string()), description: None },
    );
    match r {
        Err(ApiError::NotFound { resource }) => assert!(resource == "Project"),
        _ => panic!("expected NotFound for the missing project"),
    }
}

#[test]
fn validation_precedes_existence_check() {
    let mut projects = project_service();
    let missing = uuid::Uuid::new_v4().as_u128();
    let r = projects.update_project(
        missing,
        ProjectUpdate { name: Some("   ".to_string()), description: None },
    );
    assert!(matches!(r, Err(ApiError::ValidationError { .. })));
}

#[test]
fn get_task_not_found_names_task() {
    let tasks = task_service();
    let missing = uuid::Uuid::new_v4().as_u128();
    match tasks.get_task(missing) {
        Err(ApiError::NotFound { resource }) => assert!(resource == "Task"),
        _ => panic!("expected NotFound for the missing task"),
    }
}

#[test]
fn update_task_title_validation() {
    let mut projects = project_service();
    let mut tasks = task_service();
    let p = projects
        .create_project(ProjectCreate { name: "Website".to_string(), description: None })
        .unwrap();
    let t = tasks
        .create_task(
            projects.repository(),
            TaskCreate { project_id: p.id, title: "Design".to_string(), description: None },
        )
        .unwrap();
    let r = tasks.update_task(
        t.id,
        TaskUpdate { title: Some("   ".to_string()), description: None, done: None },
    );
    assert!(matches!(r, Err(ApiError::ValidationError { .. })));
    let g = tasks.get_task(t.id).unwrap();
    assert!(g.title == "Design");
}
