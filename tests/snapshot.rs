use trtodo::backend::{classify_file, initialize_default_categories, FileContents, JsonStorage, StorageConfig, StorageType};
use trtodo::config::Config;
use trtodo::models::{Category, CategoryError, Priority, StorageData, StorageError, Task, TaskError};
use trtodo::storage::TaskFilter;
use trtodo::time::Timestamp;

const DAY: i64 = 86400;

fn at(secs: i64) -> Timestamp {
    Timestamp { secs, nanos: 0 }
}

fn task(id: u64, title: &str, category_id: u64, priority: Priority, completed: bool, updated: i64) -> Task {
    Task {
        id,
        title: title.to_string(),
        description: None,
        category_id,
        completed,
        priority,
        due_date: None,
        order: 0,
        created_at: at(updated),
        updated_at: at(updated),
    }
}

fn category(id: u64, name: &str) -> Category {
    Category { id, name: name.to_string(), description: None, order: id as u32, created_at: at(1_700_000_000) }
}

fn snapshot(tasks: Vec<Task>, categories: Vec<Category>) -> StorageData {
    let mut data = StorageData::new();
    data.tasks = tasks;
    data.categories = categories;
    data
}

fn ids(tasks: &[Task]) -> Vec<u64> {
    tasks.iter().map(|t| t.id).collect()
}

#[test]
fn validate_accepts_consistent_snapshot() {
    let data = snapshot(
        vec![task(1, "a", 1, Priority::High, false, 0), task(2, "b", 0, Priority::Low, false, 0)],
        vec![category(1, "Home")],
    );
    assert!(data.validate().is_ok());
}

#[test]
fn validate_rejects_dangling_category() {
    let data = snapshot(vec![task(7, "a", 5, Priority::High, false, 0)], vec![category(1, "Home")]);
    assert!(matches!(data.validate(), Err(StorageError::InvalidTaskCategory(7, 5))));
    assert!(matches!(JsonStorage::check_before_write(&data), Err(StorageError::InvalidTaskCategory(7, 5))));
}

#[test]
fn validate_rejects_duplicate_names_ignoring_case() {
    let data = snapshot(vec![], vec![category(1, "work"), category(2, "Home"), category(3, "Work")]);
    match data.validate() {
        Err(StorageError::DuplicateCategory(name)) => assert_eq!(name, "Work"),
        other => panic!("unexpected {:?}", other),
    }
}

#[test]
fn validate_rejects_reserved_id_and_bad_time() {
    let data = snapshot(vec![], vec![category(0, "Home")]);
    assert!(matches!(data.validate(), Err(StorageError::InvalidData(_))));
    let mut t = task(1, "a", 0, Priority::High, false, 0);
    t.updated_at = Timestamp { secs: 0, nanos: 2_000_000_000 };
    let data = snapshot(vec![t], vec![]);
    assert!(matches!(data.validate(), Err(StorageError::InvalidData(_))));
}

#[test]
fn next_task_id_is_max_plus_one() {
    let data = snapshot(
        vec![task(1, "a", 0, Priority::High, false, 0), task(2, "b", 0, Priority::High, false, 0), task(4, "c", 0, Priority::High, false, 0)],
        vec![],
    );
    assert_eq!(data.next_task_id().unwrap(), 5);
    assert_eq!(StorageData::new().next_task_id().unwrap(), 1);
    let full = snapshot(vec![task(u64::MAX, "a", 0, Priority::High, false, 0)], vec![]);
    assert!(matches!(full.next_task_id(), Err(StorageError::Storage(_))));
}

#[test]
fn next_category_id_is_max_plus_one() {
    let data = snapshot(vec![], vec![category(1, "a"), category(3, "b")]);
    assert_eq!(data.next_category_id().unwrap(), 4);
    assert_eq!(StorageData::new().next_category_id().unwrap(), 1);
}

#[test]
fn add_task_assigns_id_to_placeholder() {
    let mut data = snapshot(vec![task(3, "a", 0, Priority::High, false, 0)], vec![]);
    assert_eq!(data.add_task(task(0, "b", 0, Priority::Low, false, 0)).unwrap(), 4);
    assert_eq!(data.add_task(task(9, "c", 0, Priority::Low, false, 0)).unwrap(), 9);
    assert_eq!(ids(&data.tasks), vec![3, 4, 9]);
}

#[test]
fn update_and_delete_task() {
    let mut data = snapshot(vec![task(1, "a", 0, Priority::High, false, 0), task(2, "b", 0, Priority::High, false, 0)], vec![]);
    assert!(data.update_task(task(2, "renamed", 0, Priority::Low, true, 5)).is_ok());
    assert_eq!(data.tasks[1].title, "renamed");
    assert!(matches!(data.update_task(task(8, "x", 0, Priority::Low, true, 5)), Err(StorageError::Storage(_))));
    assert!(data.delete_task(1).is_ok());
    assert_eq!(ids(&data.tasks), vec![2]);
    match data.delete_task(1) {
        Err(StorageError::Storage(m)) => assert_eq!(m, "Task with id 1 not found"),
        other => panic!("unexpected {:?}", other),
    }
    assert_eq!(data.get_task(2).unwrap().title, "renamed");
    assert!(data.get_task(1).is_none());
}

#[test]
fn delete_category_refused_while_in_use() {
    let mut data = snapshot(vec![task(1, "a", 1, Priority::High, false, 0)], vec![category(1, "Home"), category(2, "Work")]);
    assert!(matches!(data.delete_category(1), Err(StorageError::Storage(_))));
    assert!(data.delete_category(2).is_ok());
    assert_eq!(data.categories.len(), 1);
    match data.delete_category(2) {
        Err(StorageError::Storage(m)) => assert_eq!(m, "Category with id 2 not found"),
        other => panic!("unexpected {:?}", other),
    }
    assert!(data.update_category(category(1, "House")).is_ok());
    assert_eq!(data.get_category(1).unwrap().name, "House");
    assert!(matches!(data.update_category(category(5, "x")), Err(StorageError::Storage(_))));
}

#[test]
fn filters_select_by_each_criterion() {
    let data = snapshot(
        vec![
            task(1, "a", 1, Priority::High, false, 0),
            task(2, "b", 1, Priority::Low, true, 0),
            task(3, "c", 2, Priority::High, true, 0),
        ],
        vec![category(1, "Home"), category(2, "Work")],
    );
    let by_cat = TaskFilter { category_id: Some(1), priority: None, completed: None };
    assert_eq!(ids(&data.filter_tasks(by_cat)), vec![1, 2]);
    let by_prio = TaskFilter { category_id: None, priority: Some(Priority::High), completed: None };
    assert_eq!(ids(&data.filter_tasks(by_prio)), vec![1, 3]);
    let done = TaskFilter { category_id: None, priority: None, completed: Some(true) };
    assert_eq!(ids(&data.filter_tasks(done)), vec![2, 3]);
    let all3 = TaskFilter { category_id: Some(2), priority: Some(Priority::High), completed: Some(true) };
    assert_eq!(ids(&data.filter_tasks(all3)), vec![3]);
}

#[test]
fn search_and_title_match_ignore_case() {
    let data = snapshot(
        vec![task(1, "Buy MILK", 0, Priority::High, false, 0), task(2, "milkshake", 0, Priority::High, false, 0), task(3, "Bread", 0, Priority::High, false, 0)],
        vec![],
    );
    assert_eq!(ids(&data.search_tasks("Milk")), vec![1, 2]);
    assert_eq!(ids(&data.search_tasks("")), vec![1, 2, 3]);
    assert_eq!(ids(&data.tasks_by_title("bread")), vec![3]);
    assert!(data.tasks_by_title("brea").is_empty());
}

#[test]
fn category_by_name_ignores_case() {
    let data = snapshot(vec![], vec![category(1, "Home"), category(2, "Work")]);
    assert_eq!(data.category_by_name("WORK").unwrap().id, 2);
    assert!(data.category_by_name("Play").is_none());
}

#[test]
fn move_and_soft_delete() {
    let mut data = snapshot(vec![task(1, "a", 1, Priority::High, false, 0)], vec![category(1, "Home"), category(2, "Work")]);
    assert!(data.move_task_to_category(1, 2).is_ok());
    assert_eq!(data.tasks[0].category_id, 2);
    assert!(data.tasks[0].updated_at.secs > 0);
    assert!(data.soft_delete_task(1).is_ok());
    assert_eq!(data.tasks[0].category_id, 0);
    assert!(matches!(data.soft_delete_task(9), Err(StorageError::Storage(_))));
}

#[test]
fn purge_with_zero_days_drops_old_deleted_tasks_only() {
    let now = at(1_700_000_000);
    let mut data = snapshot(
        vec![
            task(1, "old deleted", 0, Priority::High, false, 1_000),
            task(2, "deleted now", 0, Priority::High, false, 1_700_000_000),
            task(3, "deleted later", 0, Priority::High, false, 1_700_000_001),
            task(4, "old but filed", 1, Priority::High, false, 1_000),
        ],
        vec![category(1, "Home")],
    );
    data.purge_deleted_tasks(0, now);
    assert_eq!(ids(&data.tasks), vec![3, 4]);
}

#[test]
fn purge_keeps_deleted_tasks_within_retention() {
    let now = at(1_700_000_000);
    let mut data = snapshot(
        vec![task(1, "a", 0, Priority::High, false, 1_700_000_000 - 10 * DAY), task(2, "b", 0, Priority::High, false, 1_700_000_000 - 2 * DAY)],
        vec![],
    );
    data.purge_deleted_tasks(7, now);
    assert_eq!(ids(&data.tasks), vec![2]);
}

#[test]
fn add_named_category_rejects_duplicate_name() {
    let mut data = snapshot(vec![], vec![category(1, "work")]);
    match data.add_named_category("Work".to_string(), None) {
        Err(CategoryError::DuplicateName(n)) => assert_eq!(n, "Work"),
        other => panic!("unexpected {:?}", other),
    }
    assert!(matches!(data.add_named_category("  ".to_string(), None), Err(CategoryError::EmptyName)));
    let id = data.add_named_category("Home".to_string(), Some("house".to_string())).unwrap();
    assert_eq!(id, 2);
    assert_eq!(data.categories[1].order, 2);
    assert_eq!(data.categories.len(), 2);
}

#[test]
fn delete_category_moves_tasks() {
    let mut data = snapshot(
        vec![task(1, "a", 1, Priority::High, false, 0), task(2, "b", 2, Priority::High, false, 0)],
        vec![category(1, "Home"), category(2, "Work")],
    );
    data.current_category = Some(1);
    assert!(data.delete_category_reassigning(1, Some(2)).is_ok());
    assert_eq!(data.tasks[0].category_id, 2);
    assert_eq!(data.current_category, None);
    assert!(matches!(data.delete_category_reassigning(7, None), Err(StorageError::Storage(_))));
    assert!(matches!(data.delete_category_reassigning(2, Some(9)), Err(StorageError::Storage(_))));
    assert!(data.delete_category_reassigning(2, None).is_ok());
    assert_eq!(data.tasks[0].category_id, 0);
    assert!(data.categories.is_empty());
}

#[test]
fn rename_select_and_order_categories() {
    let mut data = snapshot(vec![], vec![category(1, "Home"), category(2, "Work")]);
    assert!(matches!(data.rename_category(1, "WORK".to_string()), Err(StorageError::DuplicateCategory(_))));
    assert!(matches!(data.rename_category(1, " ".to_string()), Err(StorageError::Model(_))));
    assert!(matches!(data.rename_category(5, "Play".to_string()), Err(StorageError::Storage(_))));
    assert!(data.rename_category(1, "House".to_string()).is_ok());
    assert_eq!(data.categories[0].name, "House");
    assert!(data.select_category(2).is_ok());
    assert_eq!(data.current_category, Some(2));
    assert!(data.select_category(3).is_err());
    assert!(data.set_category_order(2, 9).is_ok());
    assert_eq!(data.categories[1].order, 9);
    assert!(data.reorder_categories(&vec![2, 1]).is_ok());
    assert_eq!(data.categories[0].order, 1);
    assert_eq!(data.categories[1].order, 0);
    assert!(data.reorder_categories(&vec![2, 8]).is_err());
    assert_eq!(data.categories[1].order, 0);
}

#[test]
fn task_and_category_constructors() {
    assert!(matches!(Task::new("   ".to_string(), 1, None, Priority::High), Err(TaskError::EmptyTitle)));
    let mut t = Task::new("Buy milk".to_string(), 1, None, Priority::High).unwrap();
    assert_eq!(t.id, 0);
    assert!(!t.completed);
    t.mark_completed();
    assert!(t.completed);
    assert!(t.update_title("\t".to_string()).is_err());
    assert!(t.update_title("Buy bread".to_string()).is_ok());
    assert_eq!(t.title, "Buy bread");
    t.move_to_category(0);
    assert!(t.is_uncategorized());
    assert!(matches!(Category::new("".to_string(), None), Err(CategoryError::EmptyName)));
    let mut c = Category::new("Home".to_string(), None).unwrap();
    assert!(c.update_name("Office".to_string()).is_ok());
    assert_eq!(c.name, "Office");
}

#[test]
fn priority_tokens() {
    assert_eq!(Priority::from_str("HIGH").unwrap(), Priority::High);
    assert_eq!(Priority::from_str("Medium").unwrap(), Priority::Medium);
    assert!(Priority::from_str("urgent").is_err());
    assert_eq!(Priority::Low.to_str(), "low");
    assert_eq!(Priority::default(), Priority::Medium);
}

#[test]
fn empty_store_loads_empty_snapshot() {
    let missing = JsonStorage::missing_file_snapshot();
    assert!(missing.tasks.is_empty());
    assert!(missing.categories.is_empty());
    let blank = JsonStorage::blank_file_snapshot();
    assert!(blank.tasks.is_empty());
    assert!(blank.categories.is_empty());
    assert_eq!(classify_file(false, ""), FileContents::Missing);
    assert_eq!(classify_file(true, " \n\t"), FileContents::Blank);
    assert_eq!(classify_file(true, "{}"), FileContents::Document);
}

#[test]
fn written_counts_are_checked() {
    let data = snapshot(vec![task(1, "a", 0, Priority::High, false, 0)], vec![category(1, "Home")]);
    assert!(JsonStorage::check_written(&data, 1, 1).is_ok());
    assert!(matches!(JsonStorage::check_written(&data, 0, 1), Err(StorageError::Storage(_))));
    assert!(JsonStorage::accept_loaded(data).is_ok());
}

#[test]
fn default_categories_only_on_empty_store() {
    let mut data = StorageData::new();
    assert!(initialize_default_categories(&mut data));
    assert_eq!(data.categories[0].name, "Home");
    assert_eq!(data.categories[1].id, 2);
    assert!(!initialize_default_categories(&mut data));
    assert_eq!(data.categories.len(), 2);
}

#[test]
fn test_json_storage() {
    let temp_dir = tempfile::tempdir().unwrap();
    let storage_path = temp_dir.path().join("tasks.json");
    let mut config = Config::default();
    config.storage_path = Some(storage_path.to_str().unwrap().to_string());
    let storage = JsonStorage::new(config);
    assert!(storage.is_ok());
}

#[test]
fn backend_paths_and_selection() {
    assert!(matches!(JsonStorage::new(Config::default()), Err(StorageError::Storage(_))));
    let mut config = Config::default();
    config.storage_path = Some("/tmp/x.json".to_string());
    assert_eq!(JsonStorage::new(config).unwrap().path, "/tmp/x.json");
    let mut config = Config::empty();
    config.storage_type = Some("sqlite".to_string());
    config.storage_path = Some("~/data.db".to_string());
    let sc = StorageConfig::from_config_manager(&config);
    assert_eq!(sc.storage_type, StorageType::Sqlite);
    if let Some(home) = dirs::home_dir() {
        assert_eq!(sc.storage_path.unwrap(), format!("{}/data.db", home.to_string_lossy()));
    }
    config.storage_type = Some("invalid".to_string());
    assert_eq!(StorageConfig::from_config_manager(&config).storage_type, StorageType::Json);
}

#[test]
fn listing_sorts_by_order_then_name() {
    let mut b = category(5, "beta");
    b.order = 1;
    let mut a = category(6, "alpha");
    a.order = 1;
    let data = snapshot(vec![], vec![category(2, "Work"), b, a]);
    let listed = data.categories_for_listing();
    let names: Vec<&str> = listed.iter().map(|c| c.name.as_str()).collect();
    assert_eq!(names, vec!["Uncategorized", "alpha", "beta", "Work"]);
    assert_eq!(listed[0].id, 0);
}

#[test]
fn missing_ids_are_named_in_errors() {
    let mut data = snapshot(vec![task(1, "a", 1, Priority::High, false, 0)], vec![category(1, "Home")]);
    match data.update_task(task(8, "x", 0, Priority::Low, true, 5)) {
        Err(StorageError::Storage(m)) => assert_eq!(m, "Task with id 8 not found"),
        other => panic!("unexpected {:?}", other),
    }
    match data.delete_category(1) {
        Err(StorageError::Storage(m)) => assert_eq!(m, "Cannot delete category 1: it has associated tasks"),
        other => panic!("unexpected {:?}", other),
    }
    match data.select_category(42) {
        Err(StorageError::Storage(m)) => assert_eq!(m, "Category with id 42 not found"),
        other => panic!("unexpected {:?}", other),
    }
    match data.delete_category_reassigning(1, Some(9)) {
        Err(StorageError::Storage(m)) => assert_eq!(m, "New category with id 9 not found"),
        other => panic!("unexpected {:?}", other),
    }
}

#[test]
fn invalid_data_messages_are_fixed() {
    let data = snapshot(vec![task(0, "a", 0, Priority::High, false, 0)], vec![category(0, "Home")]);
    match data.validate() {
        Err(StorageError::InvalidData(m)) => assert_eq!(m, "task with reserved id 0 or a time out of range"),
        other => panic!("unexpected {:?}", other),
    }
    let data = snapshot(vec![], vec![category(0, "Home")]);
    match data.validate() {
        Err(StorageError::InvalidData(m)) => assert_eq!(m, "category with reserved id 0 or a time out of range"),
        other => panic!("unexpected {:?}", other),
    }
}

#[test]
fn adding_a_case_variant_name_fails_the_save_check() {
    let mut data = snapshot(vec![], vec![category(1, "work")]);
    assert!(data.validate().is_ok());
    data.add_category(category(0, "Work")).unwrap();
    match JsonStorage::check_before_write(&data) {
        Err(StorageError::DuplicateCategory(n)) => assert_eq!(n, "Work"),
        other => panic!("unexpected {:?}", other),
    }
}
