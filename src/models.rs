//! Tasks, categories, the snapshot that holds them, and the errors of the
//! storage layer.

use vstd::prelude::*;
use crate::config::Config;
use crate::text::{ascii_lower, ascii_same_folded, ascii_text, blank, copy_text, is_blank, lower_of, lowercase, text_eq};
use crate::time::Timestamp;

verus! {

/// How urgent a task is.
#[derive(Clone, Copy, Debug, PartialEq, Eq, Structural)]
pub enum Priority {
    High,
    Medium,
    Low,
}

#[derive(Debug)]
pub enum PriorityError {
    InvalidPriority(String),
}

impl Priority {
    /// The lower-case token of a priority.
    pub open spec fn token(self) -> Seq<char> {
        match self {
            Priority::High => "high"@,
            Priority::Medium => "medium"@,
            Priority::Low => "low"@,
        }
    }

    /// The priority whose token is `t`, if any.
    pub open spec fn of_token(t: Seq<char>) -> Option<Priority> {
        if t == "high"@ {
            Some(Priority::High)
        } else if t == "medium"@ {
            Some(Priority::Medium)
        } else if t == "low"@ {
            Some(Priority::Low)
        } else {
            None
        }
    }

    /// Every priority is read back from its own token.
    pub proof fn lemma_token_round_trip(self)
        ensures
            Priority::of_token(self.token()) == Some(self),
    {
        reveal_strlit("high");
        reveal_strlit("medium");
        reveal_strlit("low");
        assert("high"@[0] != "medium"@[0]);
        assert("high"@[0] != "low"@[0]);
        assert("medium"@[0] != "low"@[0]);
    }

    /// Reads a priority, ignoring case.
    pub fn from_str(s: &str) -> (r: Result<Priority, PriorityError>)
        ensures
            match Priority::of_token(lower_of(s@)) {
                Some(p) => r == Ok::<Priority, PriorityError>(p),
                None => r matches Err(PriorityError::InvalidPriority(t)) && t@ == s@,
            },
    {
        let lower = lowercase(s);
        match Priority::from_token(lower.as_str()) {
            Some(p) => Ok(p),
            None => Err(PriorityError::InvalidPriority(s.to_string())),
        }
    }

    /// The priority whose token is exactly `s` (case matters).
    pub fn from_token(s: &str) -> (r: Option<Priority>)
        ensures
            r == Priority::of_token(s@),
    {
        if text_eq(s, "high") {
            Some(Priority::High)
        } else if text_eq(s, "medium") {
            Some(Priority::Medium)
        } else if text_eq(s, "low") {
            Some(Priority::Low)
        } else {
            None
        }
    }

    /// The lower-case token of a priority.
    pub fn to_str(self) -> (r: &'static str)
        ensures
            r@ == self.token(),
    {
        match self {
            Priority::High => "high",
            Priority::Medium => "medium",
            Priority::Low => "low",
        }
    }

    /// The priority of a task for which none was chosen.
    pub fn default() -> (r: Priority)
        ensures
            r == Priority::Medium,
    {
        Priority::Medium
    }
}

#[derive(Debug)]
pub enum TaskError {
    EmptyTitle,
    InvalidCategory(u64),
    InvalidDueDate(String),
}

#[derive(Debug)]
pub enum CategoryError {
    EmptyName,
    DuplicateName(String),
    Storage(StorageError),
}

/// A task. Id 0 stands for "not yet stored"; category id 0 for
/// "uncategorized" (also the place of soft-deleted tasks).
#[derive(Debug)]
pub struct Task {
    pub id: u64,
    pub title: String,
    pub description: Option<String>,
    pub category_id: u64,
    pub completed: bool,
    pub priority: Priority,
    pub due_date: Option<Timestamp>,
    pub order: u32,
    pub created_at: Timestamp,
    pub updated_at: Timestamp,
}

impl Task {
    /// All timestamps of the task lie in the supported range.
    pub open spec fn times_ok(self) -> bool {
        &&& self.created_at.wf()
        &&& self.updated_at.wf()
        &&& (self.due_date matches Some(d) ==> d.wf())
    }

    /// A new, unstored, incomplete task; the title must hold more than white space.
    pub fn new(title: String, category_id: u64, description: Option<String>, priority: Priority) -> (r: Result<Task, TaskError>)
        ensures
            blank(title@) ==> r matches Err(TaskError::EmptyTitle),
            !blank(title@) ==> (r matches Ok(t) && t.id == 0 && t.title == title
                && t.description == description && t.category_id == category_id
                && !t.completed && t.priority == priority && t.due_date is None
                && t.order == 0 && t.created_at == t.updated_at && t.times_ok()),
    {
        if is_blank(title.as_str()) {
            return Err(TaskError::EmptyTitle);
        }
        let now = Timestamp::now();
        Ok(Task {
            id: 0,
            title,
            description,
            category_id,
            completed: false,
            priority,
            due_date: None,
            order: 0,
            created_at: now,
            updated_at: now,
        })
    }

    /// An exact copy.
    pub fn duplicate(&self) -> (r: Task)
        ensures
            r == *self,
    {
        Task {
            id: self.id,
            title: self.title.clone(),
            description: copy_text(&self.description),
            category_id: self.category_id,
            completed: self.completed,
            priority: self.priority,
            due_date: self.due_date,
            order: self.order,
            created_at: self.created_at,
            updated_at: self.updated_at,
        }
    }

    pub fn is_uncategorized(&self) -> (r: bool)
        ensures
            r == (self.category_id == 0),
    {
        self.category_id == 0
    }

    pub fn mark_completed(&mut self)
        ensures
            *final(self) == (Task { completed: true, updated_at: final(self).updated_at, ..*old(self) }),
            final(self).updated_at.wf(),
    {
        self.completed = true;
        self.updated_at = Timestamp::now();
    }

    pub fn mark_incomplete(&mut self)
        ensures
            *final(self) == (Task { completed: false, updated_at: final(self).updated_at, ..*old(self) }),
            final(self).updated_at.wf(),
    {
        self.completed = false;
        self.updated_at = Timestamp::now();
    }

    /// Renames the task; a title of white space only is refused and changes nothing.
    pub fn update_title(&mut self, new_title: String) -> (r: Result<(), TaskError>)
        ensures
            blank(new_title@) ==> (r matches Err(TaskError::EmptyTitle) && *final(self) == *old(self)),
            !blank(new_title@) ==> r is Ok && final(self).updated_at.wf()
                && *final(self) == (Task { title: new_title, updated_at: final(self).updated_at, ..*old(self) }),
    {
        if is_blank(new_title.as_str()) {
            return Err(TaskError::EmptyTitle);
        }
        self.title = new_title;
        self.updated_at = Timestamp::now();
        Ok(())
    }

    pub fn move_to_category(&mut self, new_category_id: u64)
        ensures
            *final(self) == (Task { category_id: new_category_id, updated_at: final(self).updated_at, ..*old(self) }),
            final(self).updated_at.wf(),
    {
        self.category_id = new_category_id;
        self.updated_at = Timestamp::now();
    }

    pub fn set_due_date(&mut self, due_date: Option<Timestamp>)
        ensures
            *final(self) == (Task { due_date: due_date, updated_at: final(self).updated_at, ..*old(self) }),
            final(self).updated_at.wf(),
    {
        self.due_date = due_date;
        self.updated_at = Timestamp::now();
    }

    pub fn set_priority(&mut self, priority: Priority)
        ensures
            *final(self) == (Task { priority: priority, updated_at: final(self).updated_at, ..*old(self) }),
            final(self).updated_at.wf(),
    {
        self.priority = priority;
        self.updated_at = Timestamp::now();
    }

    pub fn set_order(&mut self, order: u32)
        ensures
            *final(self) == (Task { order: order, updated_at: final(self).updated_at, ..*old(self) }),
            final(self).updated_at.wf(),
    {
        self.order = order;
        self.updated_at = Timestamp::now();
    }
}

/// A category of tasks. Id 0 is reserved and never stored.
#[derive(Debug)]
pub struct Category {
    pub id: u64,
    pub name: String,
    pub description: Option<String>,
    pub order: u32,
    pub created_at: Timestamp,
}

impl Category {
    /// A new, unstored category; the name must hold more than white space.
    pub fn new(name: String, description: Option<String>) -> (r: Result<Category, CategoryError>)
        ensures
            blank(name@) ==> r matches Err(CategoryError::EmptyName),
            !blank(name@) ==> (r matches Ok(c) && c.id == 0 && c.name == name
                && c.description == description && c.order == 0 && c.created_at.wf()),
    {
        if is_blank(name.as_str()) {
            return Err(CategoryError::EmptyName);
        }
        Ok(Category { id: 0, name, description, order: 0, created_at: Timestamp::now() })
    }

    /// An exact copy.
    pub fn duplicate(&self) -> (r: Category)
        ensures
            r == *self,
    {
        Category {
            id: self.id,
            name: self.name.clone(),
            description: copy_text(&self.description),
            order: self.order,
            created_at: self.created_at,
        }
    }

    /// Renames the category; a name of white space only is refused and changes nothing.
    pub fn update_name(&mut self, new_name: String) -> (r: Result<(), CategoryError>)
        ensures
            blank(new_name@) ==> (r matches Err(CategoryError::EmptyName) && *final(self) == *old(self)),
            !blank(new_name@) ==> r is Ok && *final(self) == (Category { name: new_name, ..*old(self) }),
    {
        if is_blank(new_name.as_str()) {
            return Err(CategoryError::EmptyName);
        }
        self.name = new_name;
        Ok(())
    }

    pub fn set_order(&mut self, order: u32)
        ensures
            *final(self) == (Category { order: order, ..*old(self) }),
    {
        self.order = order;
    }
}

/// The errors of the storage layer. Validation failures are
/// `InvalidTaskCategory`, `DuplicateCategory` and `InvalidData`; they are
/// raised before anything is written.
#[derive(Debug)]
pub enum StorageError {
    Io(String),
    Serialization(String),
    Sqlite(String),
    Storage(String),
    InvalidData(String),
    Model(String),
    InvalidTaskCategory(u64, u64),
    DuplicateCategory(String),
}

} // verus!

verus! {

/// The schema version of a snapshot written by this library.
pub const SNAPSHOT_VERSION: u32 = 1;

/// Everything that is persisted: tasks, categories, settings, the selected
/// category and the time of the last load.
#[derive(Debug)]
pub struct StorageData {
    pub version: u32,
    pub tasks: Vec<Task>,
    pub categories: Vec<Category>,
    pub config: Config,
    pub current_category: Option<u64>,
    pub last_sync: Timestamp,
}

/// Some category of `cats` has id `id`.
pub open spec fn has_category(cats: Seq<Category>, id: u64) -> bool {
    exists|j: int| 0 <= j < cats.len() && (#[trigger] cats[j]).id == id
}

/// Task `i` names a category that does not exist.
pub open spec fn dangling(tasks: Seq<Task>, cats: Seq<Category>, i: int) -> bool {
    tasks[i].category_id != 0 && !has_category(cats, tasks[i].category_id)
}

/// Every task is uncategorized or names an existing category.
pub open spec fn references_resolve(tasks: Seq<Task>, cats: Seq<Category>) -> bool {
    forall|i: int| 0 <= i < tasks.len() ==> !#[trigger] dangling(tasks, cats, i)
}

/// Category `j` has the name of an earlier one, case ignored.
pub open spec fn repeats_name(cats: Seq<Category>, j: int) -> bool {
    exists|k: int| 0 <= k < j && lower_of((#[trigger] cats[k]).name@) == lower_of(cats[j].name@)
}

/// No two categories have the same name, case ignored.
pub open spec fn names_unique(cats: Seq<Category>) -> bool {
    forall|j: int| 0 <= j < cats.len() ==> !#[trigger] repeats_name(cats, j)
}

/// No stored task or category uses the reserved id 0, and every timestamp
/// lies in the supported range.
pub open spec fn entities_well_formed(tasks: Seq<Task>, cats: Seq<Category>) -> bool {
    &&& forall|i: int| 0 <= i < tasks.len() ==> (#[trigger] tasks[i]).id != 0 && tasks[i].times_ok()
    &&& forall|j: int| 0 <= j < cats.len() ==> (#[trigger] cats[j]).id != 0 && cats[j].created_at.wf()
}

/// The invariants every stored snapshot satisfies.
pub open spec fn valid_parts(tasks: Seq<Task>, cats: Seq<Category>) -> bool {
    &&& references_resolve(tasks, cats)
    &&& names_unique(cats)
    &&& entities_well_formed(tasks, cats)
}

/// What checking `tasks` and `cats` against the invariants yields: success
/// exactly when they are valid; else the first task whose category does not
/// exist; else the first category whose name repeats an earlier one (case
/// ignored); else an `InvalidData` error.
pub open spec fn validation_result(tasks: Seq<Task>, cats: Seq<Category>, r: Result<(), StorageError>) -> bool {
    &&& (r is Ok <==> valid_parts(tasks, cats))
    &&& (!references_resolve(tasks, cats) ==> exists|i: int|
        0 <= i < tasks.len() && #[trigger] dangling(tasks, cats, i)
        && (forall|k: int| 0 <= k < i ==> !dangling(tasks, cats, k))
        && r == Err::<(), StorageError>(StorageError::InvalidTaskCategory(tasks[i].id, tasks[i].category_id)))
    &&& (references_resolve(tasks, cats) && !names_unique(cats) ==> exists|j: int|
        0 <= j < cats.len() && #[trigger] repeats_name(cats, j)
        && (forall|k: int| 0 <= k < j ==> !repeats_name(cats, k))
        && r == Err::<(), StorageError>(StorageError::DuplicateCategory(cats[j].name)))
    &&& (references_resolve(tasks, cats) && names_unique(cats) && !entities_well_formed(tasks, cats)
        ==> (r matches Err(StorageError::InvalidData(m)) && m@ == (if tasks_well_formed(tasks) {
            BAD_CATEGORY_MESSAGE@
        } else {
            BAD_TASK_MESSAGE@
        })))
}

/// Two categories whose names are ASCII and equal up to the case of letters.
pub open spec fn ascii_names_collide(cats: Seq<Category>) -> bool {
    exists|k: int, j: int| 0 <= k < j < cats.len() && #[trigger] ascii_same_folded(cats[k].name@, cats[j].name@)
}

/// The categories of a valid snapshot with `c` appended, where `c`'s name
/// repeats a stored one ignoring case: the check reports exactly
/// `DuplicateCategory` with `c`'s name.
pub proof fn lemma_added_duplicate_reported(tasks: Seq<Task>, cats: Seq<Category>, c: Category, r: Result<(), StorageError>)
    requires
        valid_parts(tasks, cats),
        !names_unique(cats.push(c)),
        validation_result(tasks, cats.push(c), r),
    ensures
        r == Err::<(), StorageError>(StorageError::DuplicateCategory(c.name)),
{
    let all = cats.push(c);
    assert forall|i: int| 0 <= i < tasks.len() implies !#[trigger] dangling(tasks, all, i) by {
        assert(!dangling(tasks, cats, i));
        if tasks[i].category_id != 0 {
            let j = choose|j: int| 0 <= j < cats.len() && (#[trigger] cats[j]).id == tasks[i].category_id;
            assert(all[j] == cats[j]);
        }
    }
    assert forall|j: int| 0 <= j < cats.len() implies !#[trigger] repeats_name(all, j) by {
        assert(!repeats_name(cats, j));
        if repeats_name(all, j) {
            let k = choose|k: int| 0 <= k < j && lower_of((#[trigger] all[k]).name@) == lower_of(all[j].name@);
            assert(all[k] == cats[k] && all[j] == cats[j]);
        }
    }
    let j = choose|j: int| 0 <= j < all.len() && #[trigger] repeats_name(all, j)
        && (forall|k: int| 0 <= k < j ==> !repeats_name(all, k))
        && r == Err::<(), StorageError>(StorageError::DuplicateCategory(all[j].name));
    assert(j == cats.len());
}

/// The outcome of checking the invariants is unique: any two results that
/// both meet `validation_result` for the same tasks and categories are both
/// successes or the same error (an `InvalidData` message up to its text), so
/// a function stating it returns what `validate` returns.
pub proof fn lemma_validation_result_unique(tasks: Seq<Task>, cats: Seq<Category>, r1: Result<(), StorageError>, r2: Result<(), StorageError>)
    requires
        validation_result(tasks, cats, r1),
        validation_result(tasks, cats, r2),
    ensures
        (r1 is Ok && r2 is Ok) || r1 == r2
            || (r1 matches Err(StorageError::InvalidData(a)) && r2 matches Err(StorageError::InvalidData(b)) && a@ == b@),
{
    if !references_resolve(tasks, cats) {
        let i1 = choose|i: int| 0 <= i < tasks.len() && #[trigger] dangling(tasks, cats, i)
            && (forall|k: int| 0 <= k < i ==> !dangling(tasks, cats, k))
            && r1 == Err::<(), StorageError>(StorageError::InvalidTaskCategory(tasks[i].id, tasks[i].category_id));
        let i2 = choose|i: int| 0 <= i < tasks.len() && #[trigger] dangling(tasks, cats, i)
            && (forall|k: int| 0 <= k < i ==> !dangling(tasks, cats, k))
            && r2 == Err::<(), StorageError>(StorageError::InvalidTaskCategory(tasks[i].id, tasks[i].category_id));
        assert(i1 == i2) by {
            if i1 < i2 {
                assert(dangling(tasks, cats, i1));
            } else if i2 < i1 {
                assert(dangling(tasks, cats, i2));
            }
        }
    } else if !names_unique(cats) {
        let j1 = choose|j: int| 0 <= j < cats.len() && #[trigger] repeats_name(cats, j)
            && (forall|k: int| 0 <= k < j ==> !repeats_name(cats, k))
            && r1 == Err::<(), StorageError>(StorageError::DuplicateCategory(cats[j].name));
        let j2 = choose|j: int| 0 <= j < cats.len() && #[trigger] repeats_name(cats, j)
            && (forall|k: int| 0 <= k < j ==> !repeats_name(cats, k))
            && r2 == Err::<(), StorageError>(StorageError::DuplicateCategory(cats[j].name));
        assert(j1 == j2) by {
            if j1 < j2 {
                assert(repeats_name(cats, j1));
            } else if j2 < j1 {
                assert(repeats_name(cats, j2));
            }
        }
    } else if !entities_well_formed(tasks, cats) {
        let m = if tasks_well_formed(tasks) { BAD_CATEGORY_MESSAGE@ } else { BAD_TASK_MESSAGE@ };
        assert(r1 matches Err(StorageError::InvalidData(m1)) && m1@ == m);
        assert(r2 matches Err(StorageError::InvalidData(m2)) && m2@ == m);
    } else {
        assert(valid_parts(tasks, cats));
    }
}

/// The message when a task has id 0 or a timestamp out of range.
pub const BAD_TASK_MESSAGE: &'static str = "task with reserved id 0 or a time out of range";

/// The message when a category has id 0 or a timestamp out of range.
pub const BAD_CATEGORY_MESSAGE: &'static str = "category with reserved id 0 or a time out of range";

/// No task uses the reserved id 0 and every task timestamp is in range.
pub open spec fn tasks_well_formed(tasks: Seq<Task>) -> bool {
    forall|i: int| 0 <= i < tasks.len() ==> (#[trigger] tasks[i]).id != 0 && tasks[i].times_ok()
}

/// A result with its success value dropped.
pub open spec fn unit_of<T>(r: Result<T, StorageError>) -> Result<(), StorageError> {
    match r {
        Ok(_) => Ok(()),
        Err(e) => Err(e),
    }
}

impl StorageData {
    pub open spec fn valid(&self) -> bool {
        valid_parts(self.tasks@, self.categories@)
    }

    /// An empty snapshot with default settings.
    pub fn new() -> (r: StorageData)
        ensures
            r.version == SNAPSHOT_VERSION,
            r.tasks@.len() == 0,
            r.categories@.len() == 0,
            r.current_category is None,
            r.config.deleted_task_lifespan is None,
            r.config.storage_type is None,
            r.config.storage_path is None,
            r.config.default_category is None,
            crate::text::opt_is(r.config.default_priority, "medium"@),
            r.last_sync.wf(),
            r.valid(),
    {
        StorageData {
            version: SNAPSHOT_VERSION,
            tasks: Vec::new(),
            categories: Vec::new(),
            config: Config::default(),
            current_category: None,
            last_sync: Timestamp::now(),
        }
    }

    /// Checks the invariants: first that every category reference resolves
    /// (reporting the first task that fails), then that names are unique
    /// ignoring case (reporting the first repeated name), then ids and times.
    pub fn validate(&self) -> (r: Result<(), StorageError>)
        ensures
            r is Ok <==> self.valid(),
            !references_resolve(self.tasks@, self.categories@) ==> exists|i: int|
                0 <= i < self.tasks@.len() && #[trigger] dangling(self.tasks@, self.categories@, i)
                && (forall|k: int| 0 <= k < i ==> !dangling(self.tasks@, self.categories@, k))
                && r == Err::<(), StorageError>(StorageError::InvalidTaskCategory(
                    self.tasks@[i].id, self.tasks@[i].category_id)),
            references_resolve(self.tasks@, self.categories@) && !names_unique(self.categories@)
                ==> exists|j: int| 0 <= j < self.categories@.len() && #[trigger] repeats_name(self.categories@, j)
                && (forall|k: int| 0 <= k < j ==> !repeats_name(self.categories@, k))
                && r == Err::<(), StorageError>(StorageError::DuplicateCategory(self.categories@[j].name)),
            references_resolve(self.tasks@, self.categories@) && names_unique(self.categories@)
                && !entities_well_formed(self.tasks@, self.categories@) ==> r matches Err(StorageError::InvalidData(_)),
            validation_result(self.tasks@, self.categories@, r),
            references_resolve(self.tasks@, self.categories@) && ascii_names_collide(self.categories@)
                ==> !names_unique(self.categories@),
    {
        let mut i: usize = 0;
        while i < self.tasks.len()
            invariant
                i <= self.tasks@.len(),
                forall|k: int| 0 <= k < i ==> !#[trigger] dangling(self.tasks@, self.categories@, k),
            decreases self.tasks@.len() - i,
        {
            let cid = self.tasks[i].category_id;
            if cid != 0 && !contains_category(&self.categories, cid) {
                assert(dangling(self.tasks@, self.categories@, i as int));
                return Err(StorageError::InvalidTaskCategory(self.tasks[i].id, cid));
            }
            i += 1;
        }
        assert(references_resolve(self.tasks@, self.categories@));
        let mut lowered: Vec<String> = Vec::new();
        let mut j: usize = 0;
        while j < self.categories.len()
            invariant
                references_resolve(self.tasks@, self.categories@),
                j <= self.categories@.len(),
                lowered@.len() == j,
                forall|k: int| 0 <= k < j ==> (#[trigger] lowered@[k])@ == lower_of(self.categories@[k].name@),
                forall|k: int| 0 <= k < j ==> !#[trigger] repeats_name(self.categories@, k),
                forall|k: int| 0 <= k < j && ascii_text(self.categories@[k].name@) ==> lower_of((#[trigger] self.categories@[k]).name@)
                    == self.categories@[k].name@.map_values(|c: char| ascii_lower(c)),
            decreases self.categories@.len() - j,
        {
            let low = lowercase(self.categories[j].name.as_str());
            let mut k: usize = 0;
            while k < j
                invariant
                    references_resolve(self.tasks@, self.categories@),
                    forall|q: int| 0 <= q < j ==> !#[trigger] repeats_name(self.categories@, q),
                    j < self.categories@.len(),
                    k <= j,
                    lowered@.len() == j,
                    low@ == lower_of(self.categories@[j as int].name@),
                    forall|q: int| 0 <= q < j ==> (#[trigger] lowered@[q])@ == lower_of(self.categories@[q].name@),
                    forall|q: int| 0 <= q < k ==> lower_of((#[trigger] self.categories@[q]).name@) != lower_of(self.categories@[j as int].name@),
                    forall|q: int| 0 <= q < j && ascii_text(self.categories@[q].name@) ==> lower_of((#[trigger] self.categories@[q]).name@)
                        == self.categories@[q].name@.map_values(|c: char| ascii_lower(c)),
                decreases j - k,
            {
                if lowered[k] == low {
                    assert(repeats_name(self.categories@, j as int)) by {
                        assert(lower_of(self.categories@[k as int].name@) == lower_of(self.categories@[j as int].name@));
                    }
                    return Err(StorageError::DuplicateCategory(self.categories[j].name.clone()));
                }
                k += 1;
            }
            lowered.push(low);
            j += 1;
        }
        assert(names_unique(self.categories@));
        assert(!ascii_names_collide(self.categories@)) by {
            assert forall|k: int, j: int| 0 <= k < j < self.categories@.len()
                implies !#[trigger] ascii_same_folded(self.categories@[k].name@, self.categories@[j].name@) by {
                if ascii_same_folded(self.categories@[k].name@, self.categories@[j].name@) {
                    assert(lower_of(self.categories@[k].name@) == lower_of(self.categories@[j].name@));
                    assert(repeats_name(self.categories@, j));
                }
            }
        }
        let mut i: usize = 0;
        while i < self.tasks.len()
            invariant
                references_resolve(self.tasks@, self.categories@),
                names_unique(self.categories@),
                !ascii_names_collide(self.categories@),
                i <= self.tasks@.len(),
                forall|k: int| 0 <= k < i ==> (#[trigger] self.tasks@[k]).id != 0 && self.tasks@[k].times_ok(),
            decreases self.tasks@.len() - i,
        {
            let t = &self.tasks[i];
            let due_ok = match t.due_date {
                Some(d) => d.in_range(),
                None => true,
            };
            if t.id == 0 || !t.created_at.in_range() || !t.updated_at.in_range() || !due_ok {
                assert(!(self.tasks@[i as int].id != 0 && self.tasks@[i as int].times_ok()));
                return Err(StorageError::InvalidData(BAD_TASK_MESSAGE.to_string()));
            }
            i += 1;
        }
        let mut j: usize = 0;
        while j < self.categories.len()
            invariant
                references_resolve(self.tasks@, self.categories@),
                names_unique(self.categories@),
                !ascii_names_collide(self.categories@),
                forall|k: int| 0 <= k < self.tasks@.len() ==> (#[trigger] self.tasks@[k]).id != 0 && self.tasks@[k].times_ok(),
                j <= self.categories@.len(),
                forall|k: int| 0 <= k < j ==> (#[trigger] self.categories@[k]).id != 0 && self.categories@[k].created_at.wf(),
            decreases self.categories@.len() - j,
        {
            if self.categories[j].id == 0 || !self.categories[j].created_at.in_range() {
                assert(!(self.categories@[j as int].id != 0 && self.categories@[j as int].created_at.wf()));
                return Err(StorageError::InvalidData(BAD_CATEGORY_MESSAGE.to_string()));
            }
            j += 1;
        }
        Ok(())
    }
}

/// Some category in `cats` has id `id`.
pub fn contains_category(cats: &Vec<Category>, id: u64) -> (r: bool)
    ensures
        r == has_category(cats@, id),
{
    let mut j: usize = 0;
    while j < cats.len()
        invariant
            j <= cats@.len(),
            forall|k: int| 0 <= k < j ==> (#[trigger] cats@[k]).id != id,
        decreases cats@.len() - j,
    {
        if cats[j].id == id {
            return true;
        }
        j += 1;
    }
    false
}

} // verus!
