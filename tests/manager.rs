use std::path::Path;

use rusqlite::Connection;
use trtodo::backend::{classify_file, FileContents, JsonStorage, StorageConfig, StorageType};
use trtodo::config::Config;
use trtodo::migrations::{migrations, plan_apply, plan_rollback, Migration, MigrationStep};
use trtodo::models::StorageData;

fn fresh() -> StorageData {
    StorageData::new()
}

fn current(data: &StorageData) -> Option<u64> {
    Some(data.current_category.unwrap_or(0))
}

#[test]
fn test_add_category() {
    let mut data = fresh();
    let result = data.add_named_category("Test".to_string(), None);
    assert!(result.is_ok());
    let categories = data.categories_for_listing();
    assert_eq!(categories.len(), 2);
    assert!(categories.iter().any(|c| c.name == "Test"));
}

#[test]
fn test_delete_category() {
    let mut data = fresh();
    let id = data.add_named_category("Test".to_string(), None).expect("Failed to add category");
    let result = data.delete_category_reassigning(id, None);
    assert!(result.is_ok());
    let categories = data.categories_for_listing();
    assert_eq!(categories.len(), 1);
    assert!(categories.iter().any(|c| c.name == "Uncategorized"));
}

#[test]
fn test_update_category() {
    let mut data = fresh();
    let id = data.add_named_category("Test".to_string(), None).expect("Failed to add category");
    let result = data.rename_category(id, "Updated".to_string());
    assert!(result.is_ok());
    let categories = data.categories_for_listing();
    assert_eq!(categories.len(), 2);
    assert!(categories.iter().any(|c| c.name == "Updated"));
}

#[test]
fn test_category_context() {
    let mut data = fresh();
    assert_eq!(current(&data), Some(0));
    let id = data.add_named_category("Test".to_string(), None).expect("Failed to add category");
    let result = data.select_category(id);
    assert!(result.is_ok());
    assert_eq!(current(&data), Some(id));
    data.current_category = None;
    assert_eq!(current(&data), Some(0));
}

#[test]
fn test_category_ordering() {
    let mut data = fresh();
    let id1 = data.add_named_category("A".to_string(), None).expect("Failed to add category");
    let id2 = data.add_named_category("B".to_string(), None).expect("Failed to add category");
    let id3 = data.add_named_category("C".to_string(), None).expect("Failed to add category");
    data.set_category_order(id2, 1).expect("Failed to set order");
    data.set_category_order(id1, 2).expect("Failed to set order");
    data.set_category_order(id3, 3).expect("Failed to set order");
    let categories = data.categories_for_listing();
    assert_eq!(categories.len(), 4);
    assert_eq!(categories[0].name, "Uncategorized");
    assert_eq!(categories[0].order, 0);
    assert_eq!(categories[1].name, "B");
    assert_eq!(categories[1].order, 1);
    assert_eq!(categories[2].name, "A");
    assert_eq!(categories[2].order, 2);
    assert_eq!(categories[3].name, "C");
    assert_eq!(categories[3].order, 3);
}

#[test]
fn test_default_category_order() {
    let mut data = fresh();
    data.add_named_category("A".to_string(), None).expect("Failed to add category");
    data.add_named_category("B".to_string(), None).expect("Failed to add category");
    data.add_named_category("C".to_string(), None).expect("Failed to add category");
    let categories = data.categories_for_listing();
    assert_eq!(categories.len(), 4);
    for category in categories {
        assert_eq!(category.order, category.id as u32);
    }
}

#[test]
fn test_duplicate_names() {
    let mut data = fresh();
    let result = data.add_named_category("Test".to_string(), None);
    assert!(result.is_ok());
    let result = data.add_named_category("Test".to_string(), None);
    assert!(result.is_err());
    let categories = data.categories_for_listing();
    assert_eq!(categories.len(), 2);
}

fn manager_settings(dir: &Path, storage_type: Option<&str>) -> Config {
    let mut config = Config::empty();
    config.storage_path = Some(dir.join("test-data.json").to_str().unwrap().to_string());
    config.storage_type = storage_type.map(|t| t.to_string());
    config
}

#[test]
fn test_storage_config_from_manager() {
    let temp_dir = tempfile::tempdir().unwrap();
    let config = StorageConfig::from_config_manager(&manager_settings(temp_dir.path(), Some("json")));
    assert_eq!(config.storage_type, StorageType::Json);
    assert_eq!(config.storage_path.map(std::path::PathBuf::from), Some(temp_dir.path().join("test-data.json")));
}

#[test]
fn test_storage_config_from_manager_with_custom_type() {
    let temp_dir = tempfile::tempdir().unwrap();
    let settings = manager_settings(temp_dir.path(), Some("json")).with_setting("storage.type", "sqlite").unwrap();
    let config = StorageConfig::from_config_manager(&settings);
    assert_eq!(config.storage_type, StorageType::Sqlite);
    assert_eq!(config.storage_path.map(std::path::PathBuf::from), Some(temp_dir.path().join("test-data.json")));
}

#[test]
fn test_storage_config_from_manager_with_invalid_type() {
    let temp_dir = tempfile::tempdir().unwrap();
    let config = StorageConfig::from_config_manager(&manager_settings(temp_dir.path(), Some("invalid")));
    assert_eq!(config.storage_type, StorageType::Json);
    assert_eq!(config.storage_path.map(std::path::PathBuf::from), Some(temp_dir.path().join("test-data.json")));
}

#[test]
fn test_json_storage_custom_path() {
    let temp_dir = tempfile::Builder::new()
        .prefix("trtodo_test_json")
        .tempdir()
        .expect("Failed to create temporary directory");
    let storage_path = temp_dir.path().join("test_custom.json");
    let mut config = Config::default();
    config.storage_path = Some(storage_path.to_str().unwrap().to_string());
    let storage = JsonStorage::new(config).expect("Failed to create storage");
    let exists = Path::new(&storage.path).exists();
    assert_eq!(classify_file(exists, ""), FileContents::Missing);
    let loaded = JsonStorage::missing_file_snapshot();
    assert!(loaded.validate().is_ok());
}

fn run(conn: &mut Connection, steps: &[MigrationStep]) {
    let tx = conn.transaction().unwrap();
    for step in steps {
        if let Some(sql) = step.sql {
            tx.execute_batch(sql).unwrap();
        }
        tx.execute("UPDATE schema_version SET version = ?1", [step.version_after]).unwrap();
    }
    tx.commit().unwrap();
}

fn version(conn: &Connection) -> i32 {
    conn.query_row("SELECT version FROM schema_version", [], |row| row.get(0)).unwrap()
}

#[test]
fn test_migration_system() {
    let temp_file = tempfile::NamedTempFile::new().unwrap();
    let mut conn = Connection::open(temp_file.path()).unwrap();
    conn.execute("CREATE TABLE schema_version (version INTEGER NOT NULL)", []).unwrap();
    conn.execute("INSERT INTO schema_version (version) VALUES (1)", []).unwrap();

    let steps = plan_apply(version(&conn), &migrations());
    run(&mut conn, &steps);
    assert_eq!(version(&conn), 1, "Version should remain 1 as there are no migrations yet");

    let steps = plan_rollback(version(&conn), 0, &migrations());
    run(&mut conn, &steps);
    assert_eq!(version(&conn), 0, "Version should be 0 after rolling back");

    const TEST_MIGRATION: Migration = Migration {
        version: 2,
        up: "CREATE TABLE test (id INTEGER PRIMARY KEY);",
        down: "DROP TABLE test;",
    };

    run(&mut conn, &[TEST_MIGRATION.apply_step()]);
    assert_eq!(version(&conn), 2, "Version should be 2 after applying migration");

    run(&mut conn, &[TEST_MIGRATION.rollback_step()]);
    assert_eq!(version(&conn), 1, "Version should be 1 after rolling back migration");
}
