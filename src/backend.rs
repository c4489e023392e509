//! Backend selection and the flat-file backend's decisions. The flat file
//! holds the whole snapshot as one document; after a write the file is read
//! back and its entity counts are compared with the snapshot's. That check
//! only detects truncation or count drift, not reordering or corrupted rows:
//! it is weaker than the relational backend's transaction.

use vstd::prelude::*;
use crate::config::Config;
use crate::models::{unit_of, validation_result, Category, StorageData, StorageError, SNAPSHOT_VERSION};
use crate::paths::{expand_home, expands_to};
use crate::text::{blank, is_blank, opt_is, text_eq};
use crate::time::Timestamp;

verus! {

/// The two kinds of backend.
#[derive(Clone, Copy, Debug, PartialEq, Eq, Structural)]
pub enum StorageType {
    Json,
    Sqlite,
}

/// Which backend to open, and where.
#[derive(Debug)]
pub struct StorageConfig {
    pub storage_type: StorageType,
    pub storage_path: Option<String>,
}

impl StorageConfig {
    /// The backend that the settings of a configuration manager select:
    /// `sqlite` selects the relational backend, anything else (or nothing)
    /// the flat file; the path has a leading `~` expanded.
    pub fn from_config_manager(config: &Config) -> (r: StorageConfig)
        ensures
            r.storage_type == (if opt_is(config.storage_type, "sqlite"@) { StorageType::Sqlite } else { StorageType::Json }),
            config.storage_path is None ==> r.storage_path is None,
            config.storage_path matches Some(p) ==> (r.storage_path matches Some(q) && expands_to(p@, q@)),
    {
        let storage_type = match &config.storage_type {
            Some(t) => if text_eq(t.as_str(), "sqlite") {
                StorageType::Sqlite
            } else {
                StorageType::Json
            },
            None => StorageType::Json,
        };
        let storage_path = match &config.storage_path {
            Some(p) => Some(expand_home(p.as_str())),
            None => None,
        };
        StorageConfig { storage_type, storage_path }
    }
}

/// What a backing file holds before it is parsed.
#[derive(Clone, Copy, Debug, PartialEq, Eq, Structural)]
pub enum FileContents {
    /// There is no file.
    Missing,
    /// The file holds white space only.
    Blank,
    /// The file holds a document to parse.
    Document,
}

/// Classifies a backing file from whether it exists and what it holds.
pub fn classify_file(exists: bool, contents: &str) -> (r: FileContents)
    ensures
        !exists ==> r == FileContents::Missing,
        exists && blank(contents@) ==> r == FileContents::Blank,
        exists && !blank(contents@) ==> r == FileContents::Document,
{
    if !exists {
        FileContents::Missing
    } else if is_blank(contents) {
        FileContents::Blank
    } else {
        FileContents::Document
    }
}

/// The flat-file backend: the path of its document.
#[derive(Debug)]
pub struct JsonStorage {
    pub path: String,
}

impl JsonStorage {
    /// A backend on the configured path, with a leading `~` expanded.
    pub fn new(config: Config) -> (r: Result<JsonStorage, StorageError>)
        ensures
            config.storage_path is None ==> (r matches Err(StorageError::Storage(_))),
            config.storage_path matches Some(p) ==> (r matches Ok(s) && expands_to(p@, s.path@)),
    {
        match config.storage_path {
            Some(p) => Ok(JsonStorage { path: expand_home(p.as_str()) }),
            None => Err(StorageError::Storage("storage path not configured".to_string())),
        }
    }

    /// What a load returns when there is no file: an empty snapshot with the
    /// default settings.
    pub fn missing_file_snapshot() -> (r: StorageData)
        ensures
            r.version == SNAPSHOT_VERSION,
            r.tasks@.len() == 0,
            r.categories@.len() == 0,
            r.current_category is None,
            r.config.deleted_task_lifespan == Some(0u32),
            opt_is(r.config.storage_type, "json"@),
            r.config.default_category is None,
            opt_is(r.config.default_priority, "medium"@),
            r.valid(),
    {
        StorageData {
            version: SNAPSHOT_VERSION,
            tasks: Vec::new(),
            categories: Vec::new(),
            config: Config::with_defaults(),
            current_category: None,
            last_sync: Timestamp::now(),
        }
    }

    /// What a load returns for a file of white space: an empty snapshot.
    pub fn blank_file_snapshot() -> (r: StorageData)
        ensures
            r.version == SNAPSHOT_VERSION,
            r.tasks@.len() == 0,
            r.categories@.len() == 0,
            r.current_category is None,
            r.valid(),
    {
        StorageData::new()
    }

    /// A parsed document is handed out only if it meets the invariants.
    pub fn accept_loaded(data: StorageData) -> (r: Result<StorageData, StorageError>)
        ensures
            r is Ok <==> data.valid(),
            r matches Ok(d) ==> d == data,
            validation_result(data.tasks@, data.categories@, unit_of(r)),
    {
        match data.validate() {
            Ok(()) => Ok(data),
            Err(e) => Err(e),
        }
    }

    /// The check before a write: an invalid snapshot is refused.
    pub fn check_before_write(data: &StorageData) -> (r: Result<(), StorageError>)
        ensures
            r is Ok <==> data.valid(),
            validation_result(data.tasks@, data.categories@, r),
    {
        data.validate()
    }

    /// The check after a write: the document read back must hold as many
    /// tasks and categories as the snapshot written.
    pub fn check_written(written: &StorageData, tasks_read: usize, categories_read: usize) -> (r: Result<(), StorageError>)
        ensures
            r is Ok <==> (tasks_read == written.tasks@.len() && categories_read == written.categories@.len()),
            r is Err ==> (r matches Err(StorageError::Storage(_))),
    {
        if tasks_read != written.tasks.len() || categories_read != written.categories.len() {
            Err(StorageError::Storage("data integrity check failed".to_string()))
        } else {
            Ok(())
        }
    }
}

/// A store of the configuration record alone, in a file of its own.
#[derive(Debug)]
pub struct ConfigStorage {
    pub path: String,
}

impl ConfigStorage {
    pub fn new(path: &str) -> (r: Result<ConfigStorage, StorageError>)
        ensures
            r matches Ok(s) && s.path@ == path@,
    {
        Ok(ConfigStorage { path: path.to_string() })
    }

    /// The snapshot that carries a configuration record and nothing else.
    pub fn snapshot_of(config: Config) -> (r: StorageData)
        ensures
            r.version == SNAPSHOT_VERSION,
            r.tasks@.len() == 0,
            r.categories@.len() == 0,
            r.config == config,
            r.current_category is None,
            r.valid(),
    {
        StorageData {
            version: SNAPSHOT_VERSION,
            tasks: Vec::new(),
            categories: Vec::new(),
            config,
            current_category: None,
            last_sync: Timestamp::now(),
        }
    }
}

/// Adds the categories Home (id 1) and Work (id 2) to a snapshot that has
/// none; tells whether it did.
pub fn initialize_default_categories(data: &mut StorageData) -> (r: bool)
    ensures
        r == (old(data).categories@.len() == 0),
        final(data).tasks == old(data).tasks,
        final(data).config == old(data).config,
        final(data).current_category == old(data).current_category,
        !r ==> final(data).categories == old(data).categories,
        r ==> final(data).categories@.len() == 2
            && final(data).categories@[0].id == 1 && final(data).categories@[0].name@ == "Home"@
            && opt_is(final(data).categories@[0].description, "Home tasks"@)
            && final(data).categories@[1].id == 2 && final(data).categories@[1].name@ == "Work"@
            && opt_is(final(data).categories@[1].description, "Work tasks"@),
{
    if data.categories.len() != 0 {
        return false;
    }
    let now = Timestamp::now();
    data.categories.push(Category {
        id: 1,
        name: "Home".to_string(),
        description: Some("Home tasks".to_string()),
        order: 0,
        created_at: now,
    });
    data.categories.push(Category {
        id: 2,
        name: "Work".to_string(),
        description: Some("Work tasks".to_string()),
        order: 0,
        created_at: now,
    });
    true
}

} // verus!
