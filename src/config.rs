//! Configuration settings: the record kept in every snapshot, its defaults,
//! and the rules for reading, setting and clearing one setting by key.

use vstd::prelude::*;
use crate::paths::{expand_home, expands_to};
use crate::text::{copy_text, decimal, opt_is, u32_to_text, u32_value, parse_u32, text_eq};

verus! {

/// The configuration record. A field that is `None` is unset.
#[derive(Debug)]
pub struct Config {
    pub deleted_task_lifespan: Option<u32>,
    pub storage_type: Option<String>,
    pub storage_path: Option<String>,
    pub default_category: Option<String>,
    pub default_priority: Option<String>,
}

impl Default for Config {
    /// Everything unset but the default priority, which is `medium`.
    fn default() -> (r: Config)
        ensures
            r.deleted_task_lifespan is None,
            r.storage_type is None,
            r.storage_path is None,
            r.default_category is None,
            opt_is(r.default_priority, "medium"@),
    {
        Config {
            deleted_task_lifespan: None,
            storage_type: None,
            storage_path: None,
            default_category: None,
            default_priority: default_priority(),
        }
    }
}

impl Config {
    /// A record with every setting unset.
    pub fn empty() -> (r: Config)
        ensures
            r == (Config {
                deleted_task_lifespan: None,
                storage_type: None,
                storage_path: None,
                default_category: None,
                default_priority: None,
            }),
    {
        Config {
            deleted_task_lifespan: None,
            storage_type: None,
            storage_path: None,
            default_category: None,
            default_priority: None,
        }
    }

    /// An exact copy.
    pub fn duplicate(&self) -> (r: Config)
        ensures
            r == *self,
    {
        Config {
            deleted_task_lifespan: self.deleted_task_lifespan,
            storage_type: copy_text(&self.storage_type),
            storage_path: copy_text(&self.storage_path),
            default_category: copy_text(&self.default_category),
            default_priority: copy_text(&self.default_priority),
        }
    }
}

pub fn default_priority() -> (r: Option<String>)
    ensures
        opt_is(r, "medium"@),
{
    Some("medium".to_string())
}

/// The errors of configuration handling.
#[derive(Debug)]
pub enum ConfigError {
    Io(String),
    Serialization(String),
    InvalidConfig(String),
    Storage(String),
    Migration(String),
    InvalidKey(String),
}

/// The settings a user can name.
#[derive(Clone, Copy, Debug, PartialEq, Eq, Structural)]
pub enum SettingKey {
    DeletedTaskLifespan,
    StorageType,
    StoragePath,
    DefaultCategory,
    DefaultPriority,
}

impl SettingKey {
    /// The user-facing name of a setting.
    pub open spec fn name(self) -> Seq<char> {
        match self {
            SettingKey::DeletedTaskLifespan => "deleted-task-lifespan"@,
            SettingKey::StorageType => "storage.type"@,
            SettingKey::StoragePath => "storage.path"@,
            SettingKey::DefaultCategory => "default-category"@,
            SettingKey::DefaultPriority => "default-priority"@,
        }
    }

    /// The setting a name denotes, if any.
    pub open spec fn of_name(s: Seq<char>) -> Option<SettingKey> {
        if s == "deleted-task-lifespan"@ {
            Some(SettingKey::DeletedTaskLifespan)
        } else if s == "storage.type"@ {
            Some(SettingKey::StorageType)
        } else if s == "storage.path"@ {
            Some(SettingKey::StoragePath)
        } else if s == "default-category"@ {
            Some(SettingKey::DefaultCategory)
        } else if s == "default-priority"@ {
            Some(SettingKey::DefaultPriority)
        } else {
            None
        }
    }

    pub fn parse(s: &str) -> (r: Option<SettingKey>)
        ensures
            r == SettingKey::of_name(s@),
    {
        if text_eq(s, "deleted-task-lifespan") {
            Some(SettingKey::DeletedTaskLifespan)
        } else if text_eq(s, "storage.type") {
            Some(SettingKey::StorageType)
        } else if text_eq(s, "storage.path") {
            Some(SettingKey::StoragePath)
        } else if text_eq(s, "default-category") {
            Some(SettingKey::DefaultCategory)
        } else if text_eq(s, "default-priority") {
            Some(SettingKey::DefaultPriority)
        } else {
            None
        }
    }
}

pub open spec fn valid_storage_type(v: Seq<char>) -> bool {
    v == "json"@ || v == "sqlite"@
}

pub open spec fn valid_priority_name(v: Seq<char>) -> bool {
    v == "high"@ || v == "medium"@ || v == "low"@
}

pub open spec fn has_nul(s: Seq<char>) -> bool {
    exists|i: int| 0 <= i < s.len() && s[i] == '\0'
}

/// The storage type must be `json` or `sqlite`.
pub fn validate_storage_type(value: &str) -> (r: Result<(), ConfigError>)
    ensures
        r is Ok <==> valid_storage_type(value@),
        r is Err ==> (r matches Err(ConfigError::InvalidConfig(_))),
{
    if text_eq(value, "json") || text_eq(value, "sqlite") {
        Ok(())
    } else {
        Err(ConfigError::InvalidConfig("storage.type must be one of: json, sqlite".to_string()))
    }
}

/// A priority setting must be `high`, `medium` or `low` (lower case).
pub fn validate_priority(value: &str) -> (r: Result<(), ConfigError>)
    ensures
        r is Ok <==> valid_priority_name(value@),
        r is Err ==> (r matches Err(ConfigError::InvalidConfig(_))),
{
    if text_eq(value, "high") || text_eq(value, "medium") || text_eq(value, "low") {
        Ok(())
    } else {
        Err(ConfigError::InvalidConfig("priority must be one of: high, medium, low".to_string()))
    }
}

/// A lifespan is a count of days, 0 included.
pub fn validate_lifespan(value: &str) -> (r: Result<u32, ConfigError>)
    ensures
        u32_value(value@) matches Some(n) ==> r == Ok::<u32, ConfigError>(n),
        u32_value(value@) is None ==> (r matches Err(ConfigError::InvalidConfig(_))),
{
    match parse_u32(value) {
        Some(n) => Ok(n),
        None => Err(ConfigError::InvalidConfig("deleted-task-lifespan must be a positive integer or 0".to_string())),
    }
}

/// Whether the text holds a NUL character.
pub fn contains_nul(s: &str) -> (r: bool)
    ensures
        r == has_nul(s@),
{
    let n = s.unicode_len();
    let mut i: usize = 0;
    while i < n
        invariant
            n == s@.len(),
            i <= n,
            forall|k: int| 0 <= k < i ==> s@[k] != '\0',
        decreases n - i,
    {
        if s.get_char(i) == '\0' {
            return true;
        }
        i += 1;
    }
    false
}

/// The textual checks on a storage path: no NUL character, and not empty
/// once a leading `~` is expanded. The expanded path is returned. Whether
/// its directory exists and is writable is for the caller to find out.
pub fn validate_storage_path(path: &str) -> (r: Result<String, ConfigError>)
    ensures
        has_nul(path@) ==> (r matches Err(ConfigError::InvalidConfig(_))),
        r is Err ==> (r matches Err(ConfigError::InvalidConfig(_))),
        r matches Ok(q) ==> !has_nul(path@) && expands_to(path@, q@) && q@.len() > 0,
        !has_nul(path@) && crate::paths::without_home_prefix(path@) && path@.len() > 0 ==> r is Ok,
{
    if contains_nul(path) {
        return Err(ConfigError::InvalidConfig("path contains invalid characters".to_string()));
    }
    let expanded = expand_home(path);
    if expanded.unicode_len() == 0 {
        return Err(ConfigError::InvalidConfig("path cannot be empty".to_string()));
    }
    Ok(expanded)
}

/// What `Config::validate` checks.
pub open spec fn config_ok(c: Config) -> bool {
    &&& (c.storage_type matches Some(t) ==> valid_storage_type(t@))
    &&& (c.default_priority matches Some(p) ==> valid_priority_name(p@))
    &&& (c.storage_path matches Some(p) ==> !has_nul(p@))
}

/// Relies on dirs::home_dir, read as text. The home directory comes from
/// the environment: nothing is known of it.
#[verifier::external_body]
fn home_dir() -> (r: Option<String>) {
    dirs::home_dir().map(|h| h.to_string_lossy().into_owned())
}

/// What `Path::join` makes of a base and a relative part.
pub uninterp spec fn joined_path(base: Seq<char>, part: Seq<char>) -> Seq<char>;

/// Relies on std::path::Path::join, read back as text.
#[verifier::external_body]
fn join_path(base: &str, part: &str) -> (r: String)
    ensures
        r@ == joined_path(base@, part@),
{
    std::path::Path::new(base).join(part).to_string_lossy().into_owned()
}

pub fn default_deleted_task_lifespan() -> (r: Option<u32>)
    ensures
        r == Some(0u32),
{
    Some(0)
}

pub fn default_storage_type() -> (r: Option<String>)
    ensures
        opt_is(r, "json"@),
{
    Some("json".to_string())
}

/// The default data file under home directory `h`: `h/.config/trtodo/data.json`.
pub open spec fn data_path_under(h: Seq<char>) -> Seq<char> {
    joined_path(joined_path(joined_path(h, ".config"@), "trtodo"@), "data.json"@)
}

/// The default data file under a home directory.
pub fn storage_path_under(home: &str) -> (r: String)
    ensures
        r@ == data_path_under(home@),
{
    let a = join_path(home, ".config");
    let b = join_path(a.as_str(), "trtodo");
    join_path(b.as_str(), "data.json")
}

/// `~/.config/trtodo/data.json` under the home directory, when one is known.
pub fn default_storage_path() -> (r: Option<String>)
    ensures
        r matches Some(p) ==> exists|h: Seq<char>| p@ == data_path_under(h),
{
    match home_dir() {
        Some(h) => Some(storage_path_under(h.as_str())),
        None => None,
    }
}

impl Config {
    /// The defaults of a fresh installation whose home directory is `home`
    /// (no default path where none is known).
    pub fn with_defaults_under(home: Option<String>) -> (r: Config)
        ensures
            r.deleted_task_lifespan == Some(0u32),
            opt_is(r.storage_type, "json"@),
            match home {
                Some(h) => opt_is(r.storage_path, data_path_under(h@)),
                None => r.storage_path is None,
            },
            r.default_category is None,
            opt_is(r.default_priority, "medium"@),
    {
        Config {
            deleted_task_lifespan: default_deleted_task_lifespan(),
            storage_type: default_storage_type(),
            storage_path: match home {
                Some(h) => Some(storage_path_under(h.as_str())),
                None => None,
            },
            default_category: None,
            default_priority: default_priority(),
        }
    }

    /// The defaults a fresh installation uses.
    pub fn with_defaults() -> (r: Config)
        ensures
            r.deleted_task_lifespan == Some(0u32),
            opt_is(r.storage_type, "json"@),
            r.storage_path matches Some(p) ==> exists|h: Seq<char>| p@ == data_path_under(h),
            r.default_category is None,
            opt_is(r.default_priority, "medium"@),
    {
        Config::with_defaults_under(home_dir())
    }

    /// Checks the storage type, the default priority and the path's text.
    pub fn validate(&self) -> (r: Result<(), ConfigError>)
        ensures
            r is Ok <==> config_ok(*self),
            r is Err ==> (r matches Err(ConfigError::InvalidConfig(_))),
    {
        if let Some(t) = &self.storage_type {
            match validate_storage_type(t.as_str()) {
                Ok(()) => {},
                Err(e) => return Err(e),
            }
        }
        if let Some(p) = &self.default_priority {
            match validate_priority(p.as_str()) {
                Ok(()) => {},
                Err(e) => return Err(e),
            }
        }
        if let Some(p) = &self.storage_path {
            if contains_nul(p.as_str()) {
                return Err(ConfigError::InvalidConfig("path contains invalid characters".to_string()));
            }
        }
        Ok(())
    }

    /// The value of a setting as text; `None` when unset or the key is unknown.
    pub fn get(&self, key: &str) -> (r: Option<String>)
        ensures
            match SettingKey::of_name(key@) {
                Some(SettingKey::DeletedTaskLifespan) => match self.deleted_task_lifespan {
                    Some(n) => opt_is(r, decimal(n as nat)),
                    None => r is None,
                },
                Some(SettingKey::StorageType) => r == self.storage_type,
                Some(SettingKey::StoragePath) => r == self.storage_path,
                Some(SettingKey::DefaultCategory) => r == self.default_category,
                Some(SettingKey::DefaultPriority) => r == self.default_priority,
                None => r is None,
            },
    {
        match SettingKey::parse(key) {
            Some(SettingKey::DeletedTaskLifespan) => match self.deleted_task_lifespan {
                Some(n) => Some(u32_to_text(n)),
                None => None,
            },
            Some(SettingKey::StorageType) => copy_text(&self.storage_type),
            Some(SettingKey::StoragePath) => copy_text(&self.storage_path),
            Some(SettingKey::DefaultCategory) => copy_text(&self.default_category),
            Some(SettingKey::DefaultPriority) => copy_text(&self.default_priority),
            None => None,
        }
    }

    /// The record with one setting changed. The value is checked for its key
    /// (a lifespan must be a number, a storage type `json` or `sqlite`, a
    /// priority `high`, `medium` or `low`, a path is expanded and checked as
    /// text) and the whole record is checked after the change.
    pub fn with_setting(&self, key: &str, value: &str) -> (r: Result<Config, ConfigError>)
        ensures
            SettingKey::of_name(key@) is None ==> (r matches Err(ConfigError::InvalidKey(k)) && k@ == key@),
            r matches Ok(c) ==> config_ok(c),
            r matches Ok(c) ==> match SettingKey::of_name(key@) {
                Some(SettingKey::DeletedTaskLifespan) => u32_value(value@) matches Some(n)
                    && c == (Config { deleted_task_lifespan: Some(n), ..*self }),
                Some(SettingKey::StorageType) => valid_storage_type(value@)
                    && opt_is(c.storage_type, value@) && c == (Config { storage_type: c.storage_type, ..*self }),
                Some(SettingKey::StoragePath) => (c.storage_path matches Some(p) && expands_to(value@, p@) && p@.len() > 0)
                    && c == (Config { storage_path: c.storage_path, ..*self }),
                Some(SettingKey::DefaultCategory) => opt_is(c.default_category, value@)
                    && c == (Config { default_category: c.default_category, ..*self }),
                Some(SettingKey::DefaultPriority) => valid_priority_name(value@)
                    && opt_is(c.default_priority, value@) && c == (Config { default_priority: c.default_priority, ..*self }),
                None => false,
            },
            SettingKey::of_name(key@) == Some(SettingKey::DeletedTaskLifespan) && u32_value(value@) is None
                ==> (r matches Err(ConfigError::InvalidConfig(_))),
            SettingKey::of_name(key@) == Some(SettingKey::StorageType) && !valid_storage_type(value@)
                ==> (r matches Err(ConfigError::InvalidConfig(_))),
            SettingKey::of_name(key@) == Some(SettingKey::DefaultPriority) && !valid_priority_name(value@)
                ==> (r matches Err(ConfigError::InvalidConfig(_))),
            SettingKey::of_name(key@) == Some(SettingKey::StoragePath) && has_nul(value@)
                ==> (r matches Err(ConfigError::InvalidConfig(_))),
            SettingKey::of_name(key@) is Some && r is Err ==> (r matches Err(ConfigError::InvalidConfig(_))),
            SettingKey::of_name(key@) == Some(SettingKey::StoragePath) && config_ok(*self) && !has_nul(value@)
                && crate::paths::without_home_prefix(value@) && value@.len() > 0 ==> r is Ok,
            SettingKey::of_name(key@) is Some && SettingKey::of_name(key@) != Some(SettingKey::StoragePath)
                && config_ok(*self) && (SettingKey::of_name(key@) == Some(SettingKey::DeletedTaskLifespan) ==> u32_value(value@) is Some)
                && (SettingKey::of_name(key@) == Some(SettingKey::StorageType) ==> valid_storage_type(value@))
                && (SettingKey::of_name(key@) == Some(SettingKey::DefaultPriority) ==> valid_priority_name(value@))
                ==> r is Ok,
    {
        let mut c = self.duplicate();
        match SettingKey::parse(key) {
            Some(SettingKey::DeletedTaskLifespan) => {
                match validate_lifespan(value) {
                    Ok(n) => c.deleted_task_lifespan = Some(n),
                    Err(e) => return Err(e),
                }
            },
            Some(SettingKey::StorageType) => {
                match validate_storage_type(value) {
                    Ok(()) => c.storage_type = Some(value.to_string()),
                    Err(e) => return Err(e),
                }
            },
            Some(SettingKey::StoragePath) => {
                match validate_storage_path(value) {
                    Ok(p) => c.storage_path = Some(p),
                    Err(e) => return Err(e),
                }
            },
            Some(SettingKey::DefaultCategory) => {
                c.default_category = Some(value.to_string());
            },
            Some(SettingKey::DefaultPriority) => {
                match validate_priority(value) {
                    Ok(()) => c.default_priority = Some(value.to_string()),
                    Err(e) => return Err(e),
                }
            },
            None => return Err(ConfigError::InvalidKey(key.to_string())),
        }
        match c.validate() {
            Ok(()) => Ok(c),
            Err(e) => Err(e),
        }
    }

    /// The record with one setting unset.
    pub fn without_setting(&self, key: &str) -> (r: Result<Config, ConfigError>)
        ensures
            SettingKey::of_name(key@) is None ==> (r matches Err(ConfigError::InvalidKey(k)) && k@ == key@),
            match SettingKey::of_name(key@) {
                Some(SettingKey::DeletedTaskLifespan) => r == Ok::<Config, ConfigError>(Config { deleted_task_lifespan: None, ..*self }),
                Some(SettingKey::StorageType) => r == Ok::<Config, ConfigError>(Config { storage_type: None, ..*self }),
                Some(SettingKey::StoragePath) => r == Ok::<Config, ConfigError>(Config { storage_path: None, ..*self }),
                Some(SettingKey::DefaultCategory) => r == Ok::<Config, ConfigError>(Config { default_category: None, ..*self }),
                Some(SettingKey::DefaultPriority) => r == Ok::<Config, ConfigError>(Config { default_priority: None, ..*self }),
                None => r is Err,
            },
    {
        let mut c = self.duplicate();
        match SettingKey::parse(key) {
            Some(SettingKey::DeletedTaskLifespan) => c.deleted_task_lifespan = None,
            Some(SettingKey::StorageType) => c.storage_type = None,
            Some(SettingKey::StoragePath) => c.storage_path = None,
            Some(SettingKey::DefaultCategory) => c.default_category = None,
            Some(SettingKey::DefaultPriority) => c.default_priority = None,
            None => return Err(ConfigError::InvalidKey(key.to_string())),
        }
        Ok(c)
    }
}

/// The text of an optional setting value.
pub open spec fn opt_view(o: Option<String>) -> Option<Seq<char>> {
    match o {
        Some(s) => Some(s@),
        None => None,
    }
}

/// A value as listed: itself, or `null` when unset.
pub open spec fn or_null(o: Option<Seq<char>>) -> Seq<char> {
    match o {
        Some(v) => v,
        None => "null"@,
    }
}

pub open spec fn lifespan_text(o: Option<u32>) -> Option<Seq<char>> {
    match o {
        Some(n) => Some(decimal(n as nat)),
        None => None,
    }
}

/// The listing of the defaults: storage type, storage path, lifespan and
/// priority, each marked as a default.
pub open spec fn default_entries(d: Config) -> Seq<(Seq<char>, Seq<char>, bool)> {
    seq![
        ("storage.type"@, or_null(opt_view(d.storage_type)), true),
        ("storage.path"@, or_null(opt_view(d.storage_path)), true),
        ("deleted-task-lifespan"@, or_null(lifespan_text(d.deleted_task_lifespan)), true),
        ("default-priority"@, or_null(opt_view(d.default_priority)), true),
    ]
}

/// One listing entry for a set value, none for an unset one.
pub open spec fn set_entry(key: Seq<char>, v: Option<Seq<char>>) -> Seq<(Seq<char>, Seq<char>, bool)> {
    match v {
        Some(x) => seq![(key, x, false)],
        None => Seq::empty(),
    }
}

/// The listing of the values set in a stored record.
pub open spec fn stored_entries(c: Config) -> Seq<(Seq<char>, Seq<char>, bool)> {
    set_entry("deleted-task-lifespan"@, lifespan_text(c.deleted_task_lifespan))
        + set_entry("storage.type"@, opt_view(c.storage_type))
        + set_entry("storage.path"@, opt_view(c.storage_path))
        + set_entry("default-category"@, opt_view(c.default_category))
        + set_entry("default-priority"@, opt_view(c.default_priority))
}

pub open spec fn entry_view(e: (String, String, bool)) -> (Seq<char>, Seq<char>, bool) {
    (e.0@, e.1@, e.2)
}

fn value_or_null(o: &Option<String>) -> (r: String)
    ensures
        r@ == or_null(opt_view(*o)),
{
    match o {
        Some(v) => v.clone(),
        None => "null".to_string(),
    }
}

fn push_set_entry(out: &mut Vec<(String, String, bool)>, key: &str, v: Option<String>)
    ensures
        final(out)@.map_values(|e: (String, String, bool)| entry_view(e))
            == old(out)@.map_values(|e: (String, String, bool)| entry_view(e)) + set_entry(key@, opt_view(v)),
{
    match v {
        Some(x) => {
            out.push((key.to_string(), x, false));
        },
        None => {},
    }
    assert(final(out)@.map_values(|e: (String, String, bool)| entry_view(e))
        =~= old(out)@.map_values(|e: (String, String, bool)| entry_view(e)) + set_entry(key@, opt_view(v)));
}

/// Every setting with its value and whether it is a default: first the
/// defaults, then each value set in the stored record, if one could be read.
pub fn list_settings(defaults: &Config, stored: Option<&Config>) -> (r: Vec<(String, String, bool)>)
    ensures
        r@.map_values(|e: (String, String, bool)| entry_view(e)) == default_entries(*defaults) + match stored {
            Some(c) => stored_entries(*c),
            None => Seq::empty(),
        },
{
    let mut out: Vec<(String, String, bool)> = Vec::new();
    out.push(("storage.type".to_string(), value_or_null(&defaults.storage_type), true));
    out.push(("storage.path".to_string(), value_or_null(&defaults.storage_path), true));
    let lifespan = match defaults.deleted_task_lifespan {
        Some(n) => u32_to_text(n),
        None => "null".to_string(),
    };
    out.push(("deleted-task-lifespan".to_string(), lifespan, true));
    out.push(("default-priority".to_string(), value_or_null(&defaults.default_priority), true));
    assert(out@.map_values(|e: (String, String, bool)| entry_view(e)) =~= default_entries(*defaults));
    match stored {
        Some(c) => {
            let ghost base = out@.map_values(|e: (String, String, bool)| entry_view(e));
            let lifespan = match c.deleted_task_lifespan {
                Some(n) => Some(u32_to_text(n)),
                None => None,
            };
            push_set_entry(&mut out, "deleted-task-lifespan", lifespan);
            push_set_entry(&mut out, "storage.type", copy_text(&c.storage_type));
            push_set_entry(&mut out, "storage.path", copy_text(&c.storage_path));
            push_set_entry(&mut out, "default-category", copy_text(&c.default_category));
            push_set_entry(&mut out, "default-priority", copy_text(&c.default_priority));
            assert(out@.map_values(|e: (String, String, bool)| entry_view(e)) =~= base + stored_entries(*c));
        },
        None => {
            assert(default_entries(*defaults) + Seq::empty() =~= default_entries(*defaults));
        },
    }
    out
}

/// An optional text, with the empty text for `None`.
pub open spec fn or_empty(o: Option<String>) -> Seq<char> {
    match o {
        Some(s) => s@,
        None => Seq::empty(),
    }
}

fn text_or_empty(o: &Option<String>) -> (r: String)
    ensures
        r@ == or_empty(*o),
{
    match o {
        Some(s) => s.clone(),
        None => String::new(),
    }
}

/// The storage types before and after a recorded change of the setting
/// (an unset type reads as empty); `None` when no change was recorded.
pub fn storage_type_change(old_type: &Option<String>, config: &Config) -> (r: Option<(String, String)>)
    ensures
        old_type is None ==> r is None,
        old_type matches Some(o) ==> (r matches Some(p) && p.0@ == o@ && p.1@ == or_empty(config.storage_type)),
{
    match old_type {
        Some(o) => Some((o.clone(), text_or_empty(&config.storage_type))),
        None => None,
    }
}

/// Whether a change of storage type was recorded and the type now differs
/// from the one before it, so the data may need moving.
pub fn needs_migration(old_type: &Option<String>, config: &Config) -> (r: bool)
    ensures
        r == (old_type matches Some(o) && o@ != or_empty(config.storage_type)),
{
    match old_type {
        Some(o) => {
            let current = text_or_empty(&config.storage_type);
            !(*o == current)
        },
        None => false,
    }
}

} // verus!
