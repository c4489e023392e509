//! The relational backend's part that involves no database: the path it is
//! opened on, and the codec between a snapshot and the rows of its tables.
//!
//! Columns: priority is the lower-case token (`high`, `medium`, `low`);
//! timestamps are RFC 3339 texts. A row with an unknown priority token or an
//! unreadable timestamp fails the whole load; nothing is defaulted. Settings
//! are key/value rows; the selected category is a row of its own.

use vstd::prelude::*;
use crate::config::Config;
use crate::models::{unit_of, validation_result, Category, Priority, StorageData, StorageError, Task, SNAPSHOT_VERSION};
use crate::text::{join_text, parse_u32, text_eq, u32_to_text, u32_value};
use crate::time::{timestamp_of, Timestamp};

verus! {

/// One row of the `tasks` table. The category column is NULL for category
/// 0, which has no row the foreign key could point at.
#[derive(Debug)]
pub struct TaskRow {
    pub id: u64,
    pub title: String,
    pub description: Option<String>,
    pub category_id: Option<u64>,
    pub completed: bool,
    pub priority: String,
    pub due_date: Option<String>,
    pub order: u32,
    pub created_at: String,
    pub updated_at: String,
}

/// One row of the `categories` table.
#[derive(Debug)]
pub struct CategoryRow {
    pub id: u64,
    pub name: String,
    pub description: Option<String>,
    pub order: u32,
    pub created_at: String,
}

/// One row of the `config` table.
#[derive(Debug)]
pub struct SettingRow {
    pub key: String,
    pub value: String,
}

/// The content of every table, as a save writes it and a load reads it.
#[derive(Debug)]
pub struct SnapshotRows {
    pub tasks: Vec<TaskRow>,
    pub categories: Vec<CategoryRow>,
    pub settings: Vec<SettingRow>,
    pub current_category: Option<u64>,
    /// The snapshot's version; absent in a database written before it was kept.
    pub version: Option<u32>,
}

/// The snapshot version that a stored version stands for.
pub open spec fn version_of(v: Option<u32>) -> u32 {
    match v {
        Some(n) => n,
        None => SNAPSHOT_VERSION,
    }
}

/// The message of a load that meets an unknown priority token.
pub open spec fn bad_priority_message(token: Seq<char>) -> Seq<char> {
    "Invalid priority value: "@ + token
}

/// An optional timestamp column: absent stays absent, present must parse.
pub open spec fn optional_time_of(s: Option<String>) -> Option<Option<Timestamp>> {
    match s {
        None => Some(None),
        Some(t) => match timestamp_of(t@) {
            Some(v) => Some(Some(v)),
            None => None,
        },
    }
}

/// The category id a column value stands for: NULL is category 0.
pub open spec fn category_of_column(c: Option<u64>) -> u64 {
    match c {
        Some(id) => id,
        None => 0,
    }
}

/// The task a row denotes, if its priority and timestamps can be read.
pub open spec fn task_of_row(row: TaskRow) -> Option<Task> {
    match (Priority::of_token(row.priority@), optional_time_of(row.due_date),
        timestamp_of(row.created_at@), timestamp_of(row.updated_at@)) {
        (Some(p), Some(due), Some(c), Some(u)) => Some(Task {
            id: row.id,
            title: row.title,
            description: row.description,
            category_id: category_of_column(row.category_id),
            completed: row.completed,
            priority: p,
            due_date: due,
            order: row.order,
            created_at: c,
            updated_at: u,
        }),
        _ => None,
    }
}

/// The category a row denotes, if its timestamp can be read.
pub open spec fn category_of_row(row: CategoryRow) -> Option<Category> {
    match timestamp_of(row.created_at@) {
        Some(c) => Some(Category {
            id: row.id,
            name: row.name,
            description: row.description,
            order: row.order,
            created_at: c,
        }),
        None => None,
    }
}

/// `tasks` is what `rows` decode to, row by row.
pub open spec fn task_rows_decode(rows: Seq<TaskRow>, tasks: Seq<Task>) -> bool {
    rows.len() == tasks.len() && forall|i: int| 0 <= i < rows.len() ==> task_of_row(#[trigger] rows[i]) == Some(tasks[i])
}

/// `cats` is what `rows` decode to, row by row.
pub open spec fn category_rows_decode(rows: Seq<CategoryRow>, cats: Seq<Category>) -> bool {
    rows.len() == cats.len() && forall|i: int| 0 <= i < rows.len() ==> category_of_row(#[trigger] rows[i]) == Some(cats[i])
}

pub open spec fn task_rows_readable(rows: Seq<TaskRow>) -> bool {
    forall|i: int| 0 <= i < rows.len() ==> task_of_row(#[trigger] rows[i]) is Some
}

pub open spec fn category_rows_readable(rows: Seq<CategoryRow>) -> bool {
    forall|i: int| 0 <= i < rows.len() ==> category_of_row(#[trigger] rows[i]) is Some
}

/// The record after one settings row; `None` when a lifespan is no number.
/// Unknown keys are ignored.
pub open spec fn apply_setting_row(c: Config, row: SettingRow) -> Option<Config> {
    if row.key@ == "deleted_task_lifespan"@ {
        match u32_value(row.value@) {
            Some(n) => Some(Config { deleted_task_lifespan: Some(n), ..c }),
            None => None,
        }
    } else if row.key@ == "storage_type"@ {
        Some(Config { storage_type: Some(row.value), ..c })
    } else if row.key@ == "storage_path"@ {
        Some(Config { storage_path: Some(row.value), ..c })
    } else if row.key@ == "default_category"@ {
        Some(Config { default_category: Some(row.value), ..c })
    } else if row.key@ == "default_priority"@ {
        Some(Config { default_priority: Some(row.value), ..c })
    } else {
        Some(c)
    }
}

/// The record that settings rows describe, read in order from a record with
/// nothing set.
pub open spec fn config_of_rows(rows: Seq<SettingRow>) -> Option<Config>
    decreases rows.len(),
{
    if rows.len() == 0 {
        Some(Config {
            deleted_task_lifespan: None,
            storage_type: None,
            storage_path: None,
            default_category: None,
            default_priority: None,
        })
    } else {
        match config_of_rows(rows.drop_last()) {
            Some(c) => apply_setting_row(c, rows.last()),
            None => None,
        }
    }
}

/// What the relational backend opens: the database file's path.
#[derive(Debug)]
pub struct SqliteStorage {
    pub path: String,
}

impl SqliteStorage {
    /// A backend on the configured path, with a leading `~` expanded.
    pub fn new(config: Config) -> (r: Result<SqliteStorage, StorageError>)
        ensures
            config.storage_path is None ==> (r matches Err(StorageError::Storage(_))),
            config.storage_path matches Some(p) ==> (r matches Ok(s)
                && crate::paths::expands_to(p@, s.path@)),
    {
        match config.storage_path {
            Some(p) => Ok(SqliteStorage { path: crate::paths::expand_home(p.as_str()) }),
            None => Err(StorageError::Storage("storage path not configured".to_string())),
        }
    }

    pub fn priority_to_string(priority: Priority) -> (r: String)
        ensures
            r@ == priority.token(),
    {
        priority.to_str().to_string()
    }

    /// The priority of a column token; any other token is refused.
    pub fn string_to_priority(s: &str) -> (r: Result<Priority, StorageError>)
        ensures
            Priority::of_token(s@) matches Some(p) ==> r == Ok::<Priority, StorageError>(p),
            Priority::of_token(s@) is None ==> (r matches Err(StorageError::InvalidData(_))),
    {
        match Priority::from_token(s) {
            Some(p) => Ok(p),
            None => Err(StorageError::InvalidData("invalid priority value".to_string())),
        }
    }

    fn read_time(s: &str) -> (r: Result<Timestamp, StorageError>)
        ensures
            timestamp_of(s@) matches Some(t) ==> r == Ok::<Timestamp, StorageError>(t),
            timestamp_of(s@) is None ==> (r matches Err(StorageError::Storage(_))),
    {
        match Timestamp::parse_rfc3339(s) {
            Some(t) => Ok(t),
            None => Err(StorageError::Storage("unreadable timestamp".to_string())),
        }
    }

    /// Decodes one task row.
    pub fn task_from_row(row: &TaskRow) -> (r: Result<Task, StorageError>)
        ensures
            task_of_row(*row) matches Some(t) ==> r == Ok::<Task, StorageError>(t),
            task_of_row(*row) is None ==> r is Err,
            r is Err ==> (r matches Err(StorageError::Storage(_))),
            Priority::of_token(row.priority@) is None
                ==> (r matches Err(StorageError::Storage(m)) && m@ == bad_priority_message(row.priority@)),
    {
        let priority = match Priority::from_token(row.priority.as_str()) {
            Some(p) => p,
            None => return Err(StorageError::Storage(join_text("Invalid priority value: ", row.priority.as_str()))),
        };
        let due_date = match &row.due_date {
            Some(s) => match SqliteStorage::read_time(s.as_str()) {
                Ok(t) => Some(t),
                Err(e) => return Err(e),
            },
            None => None,
        };
        let created_at = match SqliteStorage::read_time(row.created_at.as_str()) {
            Ok(t) => t,
            Err(e) => return Err(e),
        };
        let updated_at = match SqliteStorage::read_time(row.updated_at.as_str()) {
            Ok(t) => t,
            Err(e) => return Err(e),
        };
        Ok(Task {
            id: row.id,
            title: row.title.clone(),
            description: crate::text::copy_text(&row.description),
            category_id: match row.category_id {
                Some(c) => c,
                None => 0,
            },
            completed: row.completed,
            priority,
            due_date,
            order: row.order,
            created_at,
            updated_at,
        })
    }

    /// Encodes one task; decoding the row gives the task back.
    pub fn task_to_row(task: &Task) -> (r: TaskRow)
        requires
            task.times_ok(),
        ensures
            task_of_row(r) == Some(*task),
            r.priority@ == task.priority.token(),
            r.category_id == (if task.category_id == 0 { None } else { Some(task.category_id) }),
    {
        let due_date = match task.due_date {
            Some(d) => Some(d.to_rfc3339()),
            None => None,
        };
        proof {
            task.priority.lemma_token_round_trip();
        }
        TaskRow {
            id: task.id,
            title: task.title.clone(),
            description: crate::text::copy_text(&task.description),
            category_id: if task.category_id == 0 { None } else { Some(task.category_id) },
            completed: task.completed,
            priority: SqliteStorage::priority_to_string(task.priority),
            due_date,
            order: task.order,
            created_at: task.created_at.to_rfc3339(),
            updated_at: task.updated_at.to_rfc3339(),
        }
    }

    /// Decodes one category row.
    pub fn category_from_row(row: &CategoryRow) -> (r: Result<Category, StorageError>)
        ensures
            category_of_row(*row) matches Some(c) ==> r == Ok::<Category, StorageError>(c),
            category_of_row(*row) is None ==> (r matches Err(StorageError::Storage(_))),
    {
        let created_at = match SqliteStorage::read_time(row.created_at.as_str()) {
            Ok(t) => t,
            Err(e) => return Err(e),
        };
        Ok(Category {
            id: row.id,
            name: row.name.clone(),
            description: crate::text::copy_text(&row.description),
            order: row.order,
            created_at,
        })
    }

    /// Encodes one category; decoding the row gives the category back.
    pub fn category_to_row(category: &Category) -> (r: CategoryRow)
        requires
            category.created_at.wf(),
        ensures
            category_of_row(r) == Some(*category),
    {
        CategoryRow {
            id: category.id,
            name: category.name.clone(),
            description: crate::text::copy_text(&category.description),
            order: category.order,
            created_at: category.created_at.to_rfc3339(),
        }
    }

    /// Decodes the task rows, failing on the first unreadable one.
    pub fn load_tasks(rows: &Vec<TaskRow>) -> (r: Result<Vec<Task>, StorageError>)
        ensures
            task_rows_readable(rows@) <==> r is Ok,
            r matches Ok(ts) ==> task_rows_decode(rows@, ts@),
            r is Err ==> (r matches Err(StorageError::Storage(_))),
            forall|i: int| #[trigger] bad_priority_at(rows@, i)
                ==> (r matches Err(StorageError::Storage(m)) && m@ == bad_priority_message(rows@[i].priority@)),
    {
        let mut out: Vec<Task> = Vec::new();
        let mut i: usize = 0;
        while i < rows.len()
            invariant
                i <= rows@.len(),
                out@.len() == i,
                forall|k: int| 0 <= k < i ==> task_of_row(#[trigger] rows@[k]) == Some(out@[k]),
            decreases rows@.len() - i,
        {
            match SqliteStorage::task_from_row(&rows[i]) {
                Ok(t) => out.push(t),
                Err(e) => {
                    proof {
                        assert(!task_rows_readable(rows@)) by {
                            assert(task_of_row(rows@[i as int]) is None);
                        }
                        assert forall|j: int| #[trigger] bad_priority_at(rows@, j)
                            implies (e matches StorageError::Storage(m) && m@ == bad_priority_message(rows@[j].priority@)) by {
                            if j < i {
                                assert(task_of_row(rows@[j]) is Some);
                            } else if j > i {
                                assert(task_of_row(rows@[i as int]) is Some);
                            }
                        }
                    }
                    return Err(e);
                },
            }
            i += 1;
        }
        Ok(out)
    }

    /// Decodes the category rows, failing on the first unreadable one.
    pub fn load_categories(rows: &Vec<CategoryRow>) -> (r: Result<Vec<Category>, StorageError>)
        ensures
            category_rows_readable(rows@) <==> r is Ok,
            r matches Ok(cs) ==> category_rows_decode(rows@, cs@),
            r is Err ==> (r matches Err(StorageError::Storage(_))),
    {
        let mut out: Vec<Category> = Vec::new();
        let mut i: usize = 0;
        while i < rows.len()
            invariant
                i <= rows@.len(),
                out@.len() == i,
                forall|k: int| 0 <= k < i ==> category_of_row(#[trigger] rows@[k]) == Some(out@[k]),
            decreases rows@.len() - i,
        {
            match SqliteStorage::category_from_row(&rows[i]) {
                Ok(c) => out.push(c),
                Err(e) => {
                    assert(category_of_row(rows@[i as int]) is None);
                    return Err(e);
                },
            }
            i += 1;
        }
        Ok(out)
    }
}

/// The five setting keys are distinct texts.
proof fn lemma_setting_keys_distinct()
    ensures
        "deleted_task_lifespan"@ != "storage_type"@,
        "deleted_task_lifespan"@ != "storage_path"@,
        "deleted_task_lifespan"@ != "default_category"@,
        "deleted_task_lifespan"@ != "default_priority"@,
        "storage_type"@ != "storage_path"@,
        "storage_type"@ != "default_category"@,
        "storage_type"@ != "default_priority"@,
        "storage_path"@ != "default_category"@,
        "storage_path"@ != "default_priority"@,
        "default_category"@ != "default_priority"@,
{
    reveal_strlit("deleted_task_lifespan");
    reveal_strlit("storage_type");
    reveal_strlit("storage_path");
    reveal_strlit("default_category");
    reveal_strlit("default_priority");
    assert("deleted_task_lifespan"@[0] != "storage_type"@[0]);
    assert("deleted_task_lifespan"@[0] != "storage_path"@[0]);
    assert("deleted_task_lifespan"@[2] != "default_category"@[2]);
    assert("deleted_task_lifespan"@[2] != "default_priority"@[2]);
    assert("storage_type"@[8] != "storage_path"@[8]);
    assert("storage_type"@[0] != "default_category"@[0]);
    assert("storage_type"@[0] != "default_priority"@[0]);
    assert("storage_path"@[0] != "default_category"@[0]);
    assert("storage_path"@[0] != "default_priority"@[0]);
    assert("default_category"@[8] != "default_priority"@[8]);
}

/// Once a prefix of the settings rows cannot be read, neither can the rows.
proof fn lemma_unreadable_prefix(rows: Seq<SettingRow>, i: int)
    requires
        0 <= i <= rows.len(),
        config_of_rows(rows.subrange(0, i)) is None,
    ensures
        config_of_rows(rows) is None,
    decreases rows.len() - i,
{
    if i == rows.len() {
        assert(rows.subrange(0, i) =~= rows);
    } else {
        assert(rows.subrange(0, i + 1).drop_last() =~= rows.subrange(0, i));
        lemma_unreadable_prefix(rows, i + 1);
    }
}

/// `rows` hold exactly the tasks, categories, settings and selection of `data`.
pub open spec fn rows_hold(rows: SnapshotRows, data: StorageData) -> bool {
    &&& task_rows_decode(rows.tasks@, data.tasks@)
    &&& category_rows_decode(rows.categories@, data.categories@)
    &&& config_of_rows(rows.settings@) == Some(data.config)
    &&& rows.current_category == data.current_category
    &&& version_of(rows.version) == data.version
}

proof fn lemma_task_decode_unique(rows: Seq<TaskRow>, a: Seq<Task>, b: Seq<Task>)
    requires
        task_rows_decode(rows, a),
        task_rows_decode(rows, b),
    ensures
        a == b,
{
    assert forall|i: int| 0 <= i < a.len() implies a[i] == b[i] by {
        assert(task_of_row(rows[i]) == Some(a[i]));
    }
    assert(a =~= b);
}

proof fn lemma_category_decode_unique(rows: Seq<CategoryRow>, a: Seq<Category>, b: Seq<Category>)
    requires
        category_rows_decode(rows, a),
        category_rows_decode(rows, b),
    ensures
        a == b,
{
    assert forall|i: int| 0 <= i < a.len() implies a[i] == b[i] by {
        assert(category_of_row(rows[i]) == Some(a[i]));
    }
    assert(a =~= b);
}

/// Task row `i` has an unknown priority token, and every row before it is readable.
pub open spec fn bad_priority_at(rows: Seq<TaskRow>, i: int) -> bool {
    0 <= i < rows.len() && (Priority::of_token(rows[i].priority@) is None)
        && forall|k: int| 0 <= k < i ==> (task_of_row(#[trigger] rows[k]) is Some)
}

/// Every table can be read, and whatever the rows decode to meets the snapshot invariants.
pub open spec fn rows_loadable(rows: SnapshotRows) -> bool {
    &&& task_rows_readable(rows.tasks@)
    &&& category_rows_readable(rows.categories@)
    &&& config_of_rows(rows.settings@) is Some
    &&& forall|ts: Seq<Task>, cs: Seq<Category>| task_rows_decode(rows.tasks@, ts)
        && category_rows_decode(rows.categories@, cs) ==> #[trigger] crate::models::valid_parts(ts, cs)
}

/// Round trip of the relational backend: the rows that a save writes for a
/// valid snapshot can be loaded, and every snapshot loaded from them has the
/// same tasks, categories, settings, selected category and version (its
/// sync time is set afresh by the load).
pub proof fn lemma_relational_round_trip(data: StorageData, rows: SnapshotRows, loaded: StorageData)
    requires
        data.valid(),
        rows_hold(rows, data),
        rows_hold(rows, loaded),
    ensures
        rows_loadable(rows),
        loaded.tasks@ == data.tasks@,
        loaded.categories@ == data.categories@,
        loaded.config == data.config,
        loaded.current_category == data.current_category,
        loaded.version == data.version,
{
    assert forall|ts: Seq<Task>, cs: Seq<Category>| task_rows_decode(rows.tasks@, ts)
        && category_rows_decode(rows.categories@, cs) implies #[trigger] crate::models::valid_parts(ts, cs) by {
        assert forall|i: int| 0 <= i < ts.len() implies ts[i] == data.tasks@[i] by {
            assert(task_of_row(rows.tasks@[i]) == Some(ts[i]));
        }
        assert forall|i: int| 0 <= i < cs.len() implies cs[i] == data.categories@[i] by {
            assert(category_of_row(rows.categories@[i]) == Some(cs[i]));
        }
        assert(ts =~= data.tasks@);
        assert(cs =~= data.categories@);
    }
    assert forall|i: int| 0 <= i < loaded.tasks@.len() implies loaded.tasks@[i] == data.tasks@[i] by {
        assert(task_of_row(rows.tasks@[i]) == Some(loaded.tasks@[i]));
    }
    assert forall|i: int| 0 <= i < loaded.categories@.len() implies loaded.categories@[i] == data.categories@[i] by {
        assert(category_of_row(rows.categories@[i]) == Some(loaded.categories@[i]));
    }
    assert(loaded.tasks@ =~= data.tasks@);
    assert(loaded.categories@ =~= data.categories@);
}

/// An uninitialized database, one whose tables hold no rows, loads: and
/// what it loads has no tasks and no categories.
pub proof fn lemma_empty_database_loads_empty(rows: SnapshotRows, loaded: StorageData)
    requires
        rows.tasks@.len() == 0,
        rows.categories@.len() == 0,
        rows.settings@.len() == 0,
    ensures
        rows_loadable(rows),
        rows_hold(rows, loaded) ==> loaded.tasks@.len() == 0 && loaded.categories@.len() == 0,
{
    assert forall|ts: Seq<Task>, cs: Seq<Category>| task_rows_decode(rows.tasks@, ts)
        && category_rows_decode(rows.categories@, cs) implies #[trigger] crate::models::valid_parts(ts, cs) by {
        assert(ts.len() == 0 && cs.len() == 0);
    }
}

impl SqliteStorage {
    /// The settings rows of a record; reading them gives the record back.
    pub fn settings_to_rows(config: &Config) -> (r: Vec<SettingRow>)
        ensures
            config_of_rows(r@) == Some(*config),
    {
        proof {
            lemma_setting_keys_distinct();
        }
        let mut rows: Vec<SettingRow> = Vec::new();
        let ghost mut c = Config {
            deleted_task_lifespan: None,
            storage_type: None,
            storage_path: None,
            default_category: None,
            default_priority: None,
        };
        assert(config_of_rows(rows@) == Some(c));
        if let Some(n) = config.deleted_task_lifespan {
            proof {
                crate::text::lemma_u32_text_round_trip(n);
            }
            let ghost prev = rows@;
            rows.push(SettingRow { key: "deleted_task_lifespan".to_string(), value: u32_to_text(n) });
            assert(rows@.drop_last() =~= prev);
            proof {
                c = Config { deleted_task_lifespan: Some(n), ..c };
            }
        }
        assert(config_of_rows(rows@) == Some(c));
        if let Some(v) = &config.storage_type {
            let ghost prev = rows@;
            rows.push(SettingRow { key: "storage_type".to_string(), value: v.clone() });
            assert(rows@.drop_last() =~= prev);
            proof {
                c = Config { storage_type: Some(*v), ..c };
            }
        }
        assert(config_of_rows(rows@) == Some(c));
        if let Some(v) = &config.storage_path {
            let ghost prev = rows@;
            rows.push(SettingRow { key: "storage_path".to_string(), value: v.clone() });
            assert(rows@.drop_last() =~= prev);
            proof {
                c = Config { storage_path: Some(*v), ..c };
            }
        }
        assert(config_of_rows(rows@) == Some(c));
        if let Some(v) = &config.default_category {
            let ghost prev = rows@;
            rows.push(SettingRow { key: "default_category".to_string(), value: v.clone() });
            assert(rows@.drop_last() =~= prev);
            proof {
                c = Config { default_category: Some(*v), ..c };
            }
        }
        assert(config_of_rows(rows@) == Some(c));
        if let Some(v) = &config.default_priority {
            let ghost prev = rows@;
            rows.push(SettingRow { key: "default_priority".to_string(), value: v.clone() });
            assert(rows@.drop_last() =~= prev);
            proof {
                c = Config { default_priority: Some(*v), ..c };
            }
        }
        assert(config_of_rows(rows@) == Some(c));
        assert(c == *config);
        rows
    }

    /// Reads the settings rows in order; a lifespan that is no number fails.
    pub fn load_config(rows: &Vec<SettingRow>) -> (r: Result<Config, StorageError>)
        ensures
            config_of_rows(rows@) matches Some(c) ==> r == Ok::<Config, StorageError>(c),
            config_of_rows(rows@) is None ==> (r matches Err(StorageError::Storage(_))),
    {
        let mut cur = Config::empty();
        let mut i: usize = 0;
        assert(rows@.subrange(0, 0) =~= Seq::<SettingRow>::empty());
        while i < rows.len()
            invariant
                i <= rows@.len(),
                config_of_rows(rows@.subrange(0, i as int)) == Some(cur),
            decreases rows@.len() - i,
        {
            let row = &rows[i];
            assert(rows@.subrange(0, i + 1).drop_last() =~= rows@.subrange(0, i as int));
            assert(rows@.subrange(0, i + 1).last() == *row);
            if text_eq(row.key.as_str(), "deleted_task_lifespan") {
                match parse_u32(row.value.as_str()) {
                    Some(n) => cur.deleted_task_lifespan = Some(n),
                    None => {
                        proof {
                            lemma_unreadable_prefix(rows@, i + 1);
                        }
                        return Err(StorageError::Storage("invalid deleted_task_lifespan value".to_string()));
                    },
                }
            } else if text_eq(row.key.as_str(), "storage_type") {
                cur.storage_type = Some(row.value.clone());
            } else if text_eq(row.key.as_str(), "storage_path") {
                cur.storage_path = Some(row.value.clone());
            } else if text_eq(row.key.as_str(), "default_category") {
                cur.default_category = Some(row.value.clone());
            } else if text_eq(row.key.as_str(), "default_priority") {
                cur.default_priority = Some(row.value.clone());
            }
            i += 1;
        }
        assert(rows@.subrange(0, i as int) =~= rows@);
        Ok(cur)
    }

    /// The rows a save writes: the snapshot is checked first, and an invalid
    /// one yields the validation error and no rows.
    pub fn save_rows(data: &StorageData) -> (r: Result<SnapshotRows, StorageError>)
        ensures
            r is Ok <==> data.valid(),
            validation_result(data.tasks@, data.categories@, unit_of(r)),
            r matches Ok(rows) ==> rows_hold(rows, *data),
    {
        match data.validate() {
            Ok(()) => {},
            Err(e) => return Err(e),
        }
        let mut tasks: Vec<TaskRow> = Vec::new();
        let mut i: usize = 0;
        while i < data.tasks.len()
            invariant
                data.valid(),
                i <= data.tasks@.len(),
                tasks@.len() == i,
                forall|k: int| 0 <= k < i ==> task_of_row(#[trigger] tasks@[k]) == Some(data.tasks@[k]),
            decreases data.tasks@.len() - i,
        {
            assert(data.tasks@[i as int].times_ok());
            tasks.push(SqliteStorage::task_to_row(&data.tasks[i]));
            i += 1;
        }
        let mut categories: Vec<CategoryRow> = Vec::new();
        let mut j: usize = 0;
        while j < data.categories.len()
            invariant
                data.valid(),
                j <= data.categories@.len(),
                categories@.len() == j,
                forall|k: int| 0 <= k < j ==> category_of_row(#[trigger] categories@[k]) == Some(data.categories@[k]),
            decreases data.categories@.len() - j,
        {
            assert(data.categories@[j as int].created_at.wf());
            categories.push(SqliteStorage::category_to_row(&data.categories[j]));
            j += 1;
        }
        Ok(SnapshotRows {
            tasks,
            categories,
            settings: SqliteStorage::settings_to_rows(&data.config),
            current_category: data.current_category,
            version: Some(data.version),
        })
    }

    /// The snapshot that rows describe. Tasks are read first, then
    /// categories, then settings; the result must meet the snapshot
    /// invariants, and fails with the error `validate` gives where it does
    /// not. The sync time is set by the load.
    pub fn load_rows(rows: &SnapshotRows) -> (r: Result<StorageData, StorageError>)
        ensures
            r is Ok <==> rows_loadable(*rows),
            !(task_rows_readable(rows.tasks@) && category_rows_readable(rows.categories@)
                && config_of_rows(rows.settings@) is Some) ==> (r matches Err(StorageError::Storage(_))),
            forall|i: int| #[trigger] bad_priority_at(rows.tasks@, i)
                ==> (r matches Err(StorageError::Storage(m)) && m@ == bad_priority_message(rows.tasks@[i].priority@)),
            task_rows_readable(rows.tasks@) && category_rows_readable(rows.categories@) && config_of_rows(rows.settings@) is Some
                ==> forall|ts: Seq<Task>, cs: Seq<Category>| task_rows_decode(rows.tasks@, ts)
                    && category_rows_decode(rows.categories@, cs) ==> #[trigger] validation_result(ts, cs, unit_of(r)),
            r matches Ok(d) ==> rows_hold(*rows, d) && d.valid() && d.last_sync.wf(),
    {
        let tasks = match SqliteStorage::load_tasks(&rows.tasks) {
            Ok(ts) => ts,
            Err(e) => return Err(e),
        };
        let categories = match SqliteStorage::load_categories(&rows.categories) {
            Ok(cs) => cs,
            Err(e) => {
                proof {
                    assert forall|i: int| 0 <= i < rows.tasks@.len() implies (Priority::of_token(rows.tasks@[i].priority@) is Some) by {
                        assert(task_of_row(rows.tasks@[i]) is Some);
                    }
                }
                return Err(e);
            },
        };
        let config = match SqliteStorage::load_config(&rows.settings) {
            Ok(c) => c,
            Err(e) => {
                proof {
                    assert forall|i: int| 0 <= i < rows.tasks@.len() implies (Priority::of_token(rows.tasks@[i].priority@) is Some) by {
                        assert(task_of_row(rows.tasks@[i]) is Some);
                    }
                }
                return Err(e);
            },
        };
        let version = match rows.version {
            Some(v) => v,
            None => SNAPSHOT_VERSION,
        };
        let data = StorageData {
            version,
            tasks,
            categories,
            config,
            current_category: rows.current_category,
            last_sync: Timestamp::now(),
        };
        proof {
            assert forall|i: int| 0 <= i < rows.tasks@.len() implies (Priority::of_token(rows.tasks@[i].priority@) is Some) by {
                assert(task_of_row(rows.tasks@[i]) is Some);
            }
        }
        let checked = data.validate();
        proof {
            assert forall|ts: Seq<Task>, cs: Seq<Category>| task_rows_decode(rows.tasks@, ts)
                && category_rows_decode(rows.categories@, cs) implies ts == data.tasks@ && cs == data.categories@ by {
                lemma_task_decode_unique(rows.tasks@, ts, data.tasks@);
                lemma_category_decode_unique(rows.categories@, cs, data.categories@);
            }
        }
        match checked {
            Ok(()) => Ok(data),
            Err(e) => Err(e),
        }
    }
}

} // verus!
