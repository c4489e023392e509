use trtodo::config::{list_settings, needs_migration, storage_type_change, validate_lifespan, validate_priority, validate_storage_path, validate_storage_type, Config, ConfigError};
use trtodo::backend::ConfigStorage;
use trtodo::migrations::{migrations, plan_apply, plan_rollback, Migration};
use trtodo::text::{contains_text, is_blank, parse_u32, white};
use trtodo::time::{Timestamp, MAX_SECS};

#[test]
fn validators() {
    assert!(validate_storage_type("json").is_ok());
    assert!(validate_storage_type("sqlite").is_ok());
    assert!(matches!(validate_storage_type("xml"), Err(ConfigError::InvalidConfig(_))));
    assert!(validate_priority("low").is_ok());
    assert!(validate_priority("Low").is_err());
    assert_eq!(validate_lifespan("30").unwrap(), 30);
    assert!(matches!(validate_lifespan("-1"), Err(ConfigError::InvalidConfig(_))));
    assert!(matches!(validate_storage_path("a\0b"), Err(ConfigError::InvalidConfig(_))));
    assert!(matches!(validate_storage_path(""), Err(ConfigError::InvalidConfig(_))));
    assert_eq!(validate_storage_path("/tmp/data.json").unwrap(), "/tmp/data.json");
}

#[test]
fn set_get_unset() {
    let c = Config::empty();
    let c = c.with_setting("storage.type", "json").unwrap();
    assert_eq!(c.get("storage.type"), Some("json".to_string()));
    let c = c.with_setting("deleted-task-lifespan", "7").unwrap();
    assert_eq!(c.get("deleted-task-lifespan"), Some("7".to_string()));
    let c = c.with_setting("default-category", "work").unwrap();
    assert_eq!(c.get("default-category"), Some("work".to_string()));
    let c = c.with_setting("default-priority", "high").unwrap();
    assert_eq!(c.get("default-priority"), Some("high".to_string()));
    assert!(matches!(c.with_setting("colour", "blue"), Err(ConfigError::InvalidKey(_))));
    assert!(c.with_setting("storage.type", "xml").is_err());
    let c = c.without_setting("default-category").unwrap();
    assert_eq!(c.get("default-category"), None);
    assert!(matches!(c.without_setting("colour"), Err(ConfigError::InvalidKey(_))));
    assert_eq!(c.get("colour"), None);
}

#[test]
fn defaults_and_listing() {
    let d = Config::with_defaults();
    assert_eq!(d.deleted_task_lifespan, Some(0));
    assert_eq!(d.storage_type, Some("json".to_string()));
    assert_eq!(d.default_priority, Some("medium".to_string()));
    if let Some(p) = &d.storage_path {
        assert!(p.ends_with("data.json"));
    }
    let mut stored = Config::empty();
    stored.default_category = Some("work".to_string());
    stored.deleted_task_lifespan = Some(3);
    let list = list_settings(&d, Some(&stored));
    assert_eq!(list.len(), 6);
    assert_eq!(list[0], ("storage.type".to_string(), "json".to_string(), true));
    assert_eq!(list[2], ("deleted-task-lifespan".to_string(), "0".to_string(), true));
    assert_eq!(list[4], ("deleted-task-lifespan".to_string(), "3".to_string(), false));
    assert_eq!(list[5], ("default-category".to_string(), "work".to_string(), false));
    let bare = list_settings(&Config::empty(), None);
    assert_eq!(bare[1], ("storage.path".to_string(), "null".to_string(), true));
}

#[test]
fn apply_migrations_twice_is_noop() {
    let ms = vec![
        Migration { version: 2, up: "CREATE TABLE a (id INTEGER);", down: "DROP TABLE a;" },
        Migration { version: 3, up: "CREATE TABLE b (id INTEGER);", down: "DROP TABLE b;" },
    ];
    let plan = plan_apply(1, &ms);
    assert_eq!(plan.len(), 2);
    assert_eq!(plan[0].sql, Some("CREATE TABLE a (id INTEGER);"));
    assert_eq!(plan[1].version_after, 3);
    assert!(plan_apply(3, &ms).is_empty());
    assert!(plan_apply(1, &migrations()).is_empty());
}

#[test]
fn rollback_plans() {
    let ms = vec![
        Migration { version: 2, up: "CREATE TABLE a (id INTEGER);", down: "DROP TABLE a;" },
        Migration { version: 3, up: "CREATE TABLE b (id INTEGER);", down: "DROP TABLE b;" },
    ];
    let plan = plan_rollback(3, 1, &ms);
    assert_eq!(plan.len(), 2);
    assert_eq!(plan[0].sql, Some("DROP TABLE b;"));
    assert_eq!(plan[0].version_after, 2);
    assert_eq!(plan[1].version_after, 1);
    let initial = plan_rollback(1, 0, &migrations());
    assert_eq!(initial.len(), 1);
    assert_eq!(initial[0].sql, None);
    assert_eq!(initial[0].version_after, 0);
    assert!(plan_rollback(1, 1, &ms).is_empty());
    let step = ms[0].rollback_step();
    assert_eq!(step.version_after, 1);
    assert_eq!(ms[0].apply_step().version_after, 2);
}

#[test]
fn text_helpers() {
    assert!(is_blank(" \t\n"));
    assert!(is_blank(""));
    assert!(!is_blank(" a "));
    assert!(contains_text("hello world", "o w"));
    assert!(!contains_text("hello", "hello!"));
}

#[test]
fn storage_type_change_detection() {
    let mut c = Config::empty();
    c.storage_type = Some("sqlite".to_string());
    assert!(!needs_migration(&None, &c));
    assert!(needs_migration(&Some("json".to_string()), &c));
    assert!(!needs_migration(&Some("sqlite".to_string()), &c));
    assert_eq!(storage_type_change(&Some("json".to_string()), &c), Some(("json".to_string(), "sqlite".to_string())));
    assert_eq!(storage_type_change(&Some("json".to_string()), &Config::empty()), Some(("json".to_string(), String::new())));
    assert_eq!(storage_type_change(&None, &c), None);
}

#[test]
fn config_validation() {
    let mut c = Config::empty();
    assert!(c.validate().is_ok());
    c.storage_type = Some("xml".to_string());
    assert!(matches!(c.validate(), Err(ConfigError::InvalidConfig(_))));
    c.storage_type = Some("sqlite".to_string());
    c.default_priority = Some("urgent".to_string());
    assert!(matches!(c.validate(), Err(ConfigError::InvalidConfig(_))));
    c.default_priority = Some("low".to_string());
    c.storage_path = Some("bad\0path".to_string());
    assert!(matches!(c.validate(), Err(ConfigError::InvalidConfig(_))));
    c.storage_path = Some("/tmp/ok.json".to_string());
    assert!(c.validate().is_ok());
}

#[test]
fn config_storage_holds_only_settings() {
    let store = ConfigStorage::new("/tmp/config.json").unwrap();
    assert_eq!(store.path, "/tmp/config.json");
    let mut c = Config::empty();
    c.default_category = Some("work".to_string());
    let data = ConfigStorage::snapshot_of(c);
    assert!(data.tasks.is_empty());
    assert!(data.categories.is_empty());
    assert_eq!(data.config.default_category, Some("work".to_string()));
}

#[test]
fn decimal_parsing_matches_std() {
    for s in ["7", "+7", "007", "4294967295", "4294967296", "", "+", "-1", " 7", "7a", "99999999999"] {
        assert_eq!(parse_u32(s), s.parse::<u32>().ok(), "input {:?}", s);
    }
}

#[test]
fn clock_readings_are_clamped() {
    assert_eq!(Timestamp::from_clock(None), Timestamp { secs: 0, nanos: 0 });
    assert_eq!(Timestamp::from_clock(Some((5, 7))), Timestamp { secs: 5, nanos: 7 });
    assert_eq!(Timestamp::from_clock(Some((u64::MAX, 2_000_000_000))), Timestamp { secs: MAX_SECS, nanos: 999_999_999 });
    assert!(Timestamp::now().secs > 0);
}

#[test]
fn white_space_matches_std_for_every_char() {
    for u in 0u32..=0x10FFFF {
        if let Some(c) = char::from_u32(u) {
            assert_eq!(white(c), c.is_whitespace(), "code point {:#x}", u);
        }
    }
}
