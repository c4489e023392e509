use trtodo::config::Config;
use trtodo::models::{Category, Priority, StorageData, StorageError, Task};
use trtodo::sqlite::{CategoryRow, SettingRow, SnapshotRows, SqliteStorage, TaskRow};
use trtodo::time::Timestamp;

fn at(secs: i64, nanos: u32) -> Timestamp {
    Timestamp { secs, nanos }
}

fn sample() -> StorageData {
    let mut data = StorageData::new();
    data.categories.push(Category {
        id: 1,
        name: "Home".to_string(),
        description: Some("house".to_string()),
        order: 3,
        created_at: at(1_700_000_000, 0),
    });
    data.tasks.push(Task {
        id: 1,
        title: "Buy milk".to_string(),
        description: None,
        category_id: 1,
        completed: true,
        priority: Priority::High,
        due_date: Some(at(1_700_086_400, 500_000_000)),
        order: 2,
        created_at: at(1_700_000_000, 123_456_789),
        updated_at: at(1_700_000_100, 0),
    });
    data.tasks.push(Task {
        id: 2,
        title: "Old".to_string(),
        description: Some("gone".to_string()),
        category_id: 0,
        completed: false,
        priority: Priority::Low,
        due_date: None,
        order: 0,
        created_at: at(0, 0),
        updated_at: at(-86_400, 1),
    });
    data.config = Config::empty();
    data.config.deleted_task_lifespan = Some(7);
    data.config.storage_type = Some("sqlite".to_string());
    data.current_category = Some(1);
    data
}

fn task_row(priority: &str) -> TaskRow {
    TaskRow {
        id: 1,
        title: "t".to_string(),
        description: None,
        category_id: None,
        completed: false,
        priority: priority.to_string(),
        due_date: None,
        order: 0,
        created_at: "2024-01-02T03:04:05Z".to_string(),
        updated_at: "2024-01-02T03:04:05+00:00".to_string(),
    }
}

fn rows(tasks: Vec<TaskRow>) -> SnapshotRows {
    SnapshotRows { tasks, categories: vec![], settings: vec![], current_category: None, version: None }
}

#[test]
fn test_sqlite_storage() {
    let temp_dir = tempfile::tempdir().unwrap();
    let storage_path = temp_dir.path().join("tasks.db");
    let mut config = Config::default();
    config.storage_path = Some(storage_path.to_str().unwrap().to_string());
    let storage = SqliteStorage::new(config);
    assert!(storage.is_ok());
}

#[test]
fn rows_round_trip() {
    let data = sample();
    let written = SqliteStorage::save_rows(&data).unwrap();
    assert_eq!(written.tasks[0].priority, "high");
    assert_eq!(written.tasks[1].priority, "low");
    assert_eq!(written.tasks[0].category_id, Some(1));
    assert_eq!(written.tasks[1].category_id, None);
    let loaded = SqliteStorage::load_rows(&written).unwrap();
    assert_eq!(loaded.tasks.len(), 2);
    for (a, b) in loaded.tasks.iter().zip(data.tasks.iter()) {
        assert_eq!(a.id, b.id);
        assert_eq!(a.title, b.title);
        assert_eq!(a.description, b.description);
        assert_eq!(a.category_id, b.category_id);
        assert_eq!(a.completed, b.completed);
        assert_eq!(a.priority, b.priority);
        assert_eq!(a.due_date, b.due_date);
        assert_eq!(a.order, b.order);
        assert_eq!(a.created_at, b.created_at);
        assert_eq!(a.updated_at, b.updated_at);
    }
    assert_eq!(loaded.categories[0].name, "Home");
    assert_eq!(loaded.categories[0].created_at, data.categories[0].created_at);
    assert_eq!(loaded.config.deleted_task_lifespan, Some(7));
    assert_eq!(loaded.config.storage_type, Some("sqlite".to_string()));
    assert_eq!(loaded.config.default_priority, None);
    assert_eq!(loaded.current_category, Some(1));
    assert_eq!(loaded.version, data.version);
}

#[test]
fn version_round_trips() {
    let mut data = sample();
    data.version = 3;
    let written = SqliteStorage::save_rows(&data).unwrap();
    assert_eq!(written.version, Some(3));
    assert_eq!(SqliteStorage::load_rows(&written).unwrap().version, 3);
    assert_eq!(SqliteStorage::load_rows(&rows(vec![])).unwrap().version, 1);
}

#[test]
fn duplicate_names_fail_load() {
    let mut written = SqliteStorage::save_rows(&sample()).unwrap();
    let mut second = SqliteStorage::category_to_row(&Category {
        id: 2,
        name: "HOME".to_string(),
        description: None,
        order: 0,
        created_at: at(0, 0),
    });
    second.description = None;
    written.categories.push(second);
    match SqliteStorage::load_rows(&written) {
        Err(StorageError::DuplicateCategory(n)) => assert_eq!(n, "HOME"),
        other => panic!("unexpected {:?}", other),
    }
}

#[test]
fn timestamps_are_rfc3339_text() {
    let row = SqliteStorage::category_to_row(&Category {
        id: 1,
        name: "Home".to_string(),
        description: None,
        order: 0,
        created_at: at(0, 0),
    });
    assert_eq!(row.created_at, "1970-01-01T00:00:00+00:00");
    let c = SqliteStorage::category_from_row(&CategoryRow {
        id: 4,
        name: "Work".to_string(),
        description: None,
        order: 1,
        created_at: "2024-01-02T03:04:05Z".to_string(),
    })
    .unwrap();
    assert_eq!(c.created_at, at(1_704_164_645, 0));
}

#[test]
fn malformed_priority_fails_load() {
    match SqliteStorage::load_rows(&rows(vec![task_row("INVALID_PRIORITY")])) {
        Err(StorageError::Storage(m)) => assert_eq!(m, "Invalid priority value: INVALID_PRIORITY"),
        other => panic!("unexpected {:?}", other),
    }
    assert!(matches!(SqliteStorage::string_to_priority("High"), Err(StorageError::InvalidData(_))));
    assert_eq!(SqliteStorage::string_to_priority("medium").unwrap(), Priority::Medium);
    assert_eq!(SqliteStorage::priority_to_string(Priority::Medium), "medium");
}

#[test]
fn unparsable_timestamp_fails_load() {
    let mut row = task_row("low");
    row.created_at = "yesterday".to_string();
    assert!(matches!(SqliteStorage::load_tasks(&vec![task_row("low"), row]), Err(StorageError::Storage(_))));
    let mut row = task_row("low");
    row.due_date = Some("soon".to_string());
    assert!(matches!(SqliteStorage::load_rows(&rows(vec![row])), Err(StorageError::Storage(_))));
    let settings = vec![SettingRow { key: "deleted_task_lifespan".to_string(), value: "-3".to_string() }];
    let r = SqliteStorage::load_rows(&SnapshotRows { tasks: vec![], categories: vec![], settings, current_category: None, version: None });
    assert!(matches!(r, Err(StorageError::Storage(_))));
}

#[test]
fn empty_database_loads_empty_snapshot() {
    let loaded = SqliteStorage::load_rows(&rows(vec![])).unwrap();
    assert!(loaded.tasks.is_empty());
    assert!(loaded.categories.is_empty());
}

#[test]
fn save_rows_rejects_dangling_reference() {
    let mut data = sample();
    data.tasks[0].category_id = 5;
    assert!(matches!(SqliteStorage::save_rows(&data), Err(StorageError::InvalidTaskCategory(1, 5))));
}

#[test]
fn loaded_rows_are_validated() {
    let mut row = task_row("low");
    row.category_id = Some(5);
    assert!(matches!(SqliteStorage::load_rows(&rows(vec![row])), Err(StorageError::InvalidTaskCategory(1, 5))));
}

#[test]
fn settings_rows_later_value_wins_and_unknown_ignored() {
    let settings = vec![
        SettingRow { key: "default_priority".to_string(), value: "low".to_string() },
        SettingRow { key: "colour".to_string(), value: "blue".to_string() },
        SettingRow { key: "default_priority".to_string(), value: "high".to_string() },
    ];
    let c = SqliteStorage::load_config(&settings).unwrap();
    assert_eq!(c.default_priority, Some("high".to_string()));
    assert_eq!(c.storage_type, None);
}
