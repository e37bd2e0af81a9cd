use ralpher::task::{missing_tasks_message, Task, TaskFileError, TaskList, TaskStatus};

fn sample_tasks() -> Vec<Task> {
    vec![
        Task {
            id: "task-1".to_string(),
            title: "First task".to_string(),
            status: TaskStatus::Done,
            acceptance: vec!["Criterion 1".to_string()],
            validators: vec![],
            notes: None,
        },
        Task {
            id: "task-2".to_string(),
            title: "Second task".to_string(),
            status: TaskStatus::InProgress,
            acceptance: vec![],
            validators: vec![],
            notes: Some("Working on it".to_string()),
        },
        Task {
            id: "task-3".to_string(),
            title: "Third task".to_string(),
            status: TaskStatus::Todo,
            acceptance: vec![],
            validators: vec![],
            notes: None,
        },
        Task {
            id: "task-4".to_string(),
            title: "Fourth task".to_string(),
            status: TaskStatus::Blocked,
            acceptance: vec![],
            validators: vec![],
            notes: Some("Waiting on dependency".to_string()),
        },
    ]
}

#[test]
fn test_current_task_in_progress() {
    let list = TaskList {
        tasks: sample_tasks(),
        path: None,
    };
    let current = list.current_task().unwrap();
    // Should return the in_progress task, not the first todo
    assert_eq!(current.id, "task-2");
    assert_eq!(current.status, TaskStatus::InProgress);
}

#[test]
fn test_current_task_todo() {
    let list = TaskList {
        tasks: vec![
            Task {
                id: "t1".to_string(),
                title: "Done".to_string(),
                status: TaskStatus::Done,
                acceptance: vec![],
                validators: vec![],
                notes: None,
            },
            Task {
                id: "t2".to_string(),
                title: "Todo".to_string(),
                status: TaskStatus::Todo,
                acceptance: vec![],
                validators: vec![],
                notes: None,
            },
        ],
        path: None,
    };
    let current = list.current_task().unwrap();
    assert_eq!(current.id, "t2");
}

#[test]
fn test_current_task_none() {
    let list = TaskList {
        tasks: vec![Task {
            id: "t1".to_string(),
            title: "Done".to_string(),
            status: TaskStatus::Done,
            acceptance: vec![],
            validators: vec![],
            notes: None,
        }],
        path: None,
    };
    assert!(list.current_task().is_none());
}

#[test]
fn test_is_complete() {
    let mut list = TaskList {
        tasks: sample_tasks(),
        path: None,
    };
    assert!(!list.is_complete());

    // Mark all as done
    for task in &mut list.tasks {
        task.status = TaskStatus::Done;
    }
    assert!(list.is_complete());
}

#[test]
fn test_count_by_status() {
    let list = TaskList {
        tasks: sample_tasks(),
        path: None,
    };
    assert_eq!(list.count_by_status(TaskStatus::Done), 1);
    assert_eq!(list.count_by_status(TaskStatus::InProgress), 1);
    assert_eq!(list.count_by_status(TaskStatus::Todo), 1);
    assert_eq!(list.count_by_status(TaskStatus::Blocked), 1);
}

#[test]
fn test_get_mut() {
    let mut list = TaskList {
        tasks: sample_tasks(),
        path: None,
    };

    let task = list.get_mut("task-3").unwrap();
    task.status = TaskStatus::InProgress;

    assert_eq!(list.tasks[2].status, TaskStatus::InProgress);
    assert!(list.get_mut("nonexistent").is_none());
}

#[test]
fn counts_add_up() {
    let list = TaskList::new(sample_tasks());
    let sum = list.count_by_status(TaskStatus::Todo)
        + list.count_by_status(TaskStatus::InProgress)
        + list.count_by_status(TaskStatus::Done)
        + list.count_by_status(TaskStatus::Blocked);
    assert_eq!(sum, list.tasks.len());
}

#[test]
fn empty_list_is_complete() {
    let list = TaskList::default();
    assert!(list.is_complete());
    assert!(list.current_task().is_none());
    assert!(list.current_task_index().is_none());
}

#[test]
fn blocked_tasks_are_not_current() {
    let mut tasks = sample_tasks();
    tasks.truncate(1);
    tasks[0].status = TaskStatus::Blocked;
    let list = TaskList::new(tasks);
    assert!(list.current_task().is_none());
    assert!(!list.is_complete());
}

#[test]
fn first_task_with_an_id_is_found() {
    let mut tasks = sample_tasks();
    tasks[3].id = "task-1".to_string();
    let mut list = TaskList::new(tasks);
    assert_eq!(list.index_of("task-1"), Some(0));
    list.get_mut("task-1").unwrap().title = "Changed".to_string();
    assert_eq!(list.tasks[0].title, "Changed");
    assert_eq!(list.tasks[3].title, "Fourth task");
}

#[test]
fn lists_are_saved_where_they_came_from() {
    let mut list = TaskList::new(sample_tasks());
    assert_eq!(list.save(), Err(TaskFileError::NoPath));
    assert_eq!(TaskFileError::NoPath.message(), "TaskList has no associated path");
    list.path = Some("/repo/ralpher.prd.json".to_string());
    assert_eq!(list.save(), Ok("/repo/ralpher.prd.json"));
}

#[test]
fn test_missing_task_file() {
    assert!(missing_tasks_message("/repo").contains("No ralpher.prd.json"));
    assert_eq!(
        missing_tasks_message("/repo"),
        "No ralpher.prd.json found in /repo. Create a PRD task file to track progress."
    );
}

#[test]
fn copies_say_the_same() {
    let list = TaskList::new(sample_tasks());
    let copy = list.clone();
    assert_eq!(copy.tasks.len(), 4);
    assert_eq!(copy.tasks[1].notes, Some("Working on it".to_string()));
    assert_eq!(copy.tasks[0].acceptance, vec!["Criterion 1".to_string()]);
    assert_eq!(TaskStatus::default(), TaskStatus::Todo);
}
