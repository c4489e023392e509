//! The operations that a storage handle performs between one `load` and one
//! `save`: each one is a transformation of the in-memory snapshot, or a query
//! on it.
//!
//! Id policy, for tasks and for categories alike: a new entity gets one more
//! than the largest id in use, and 1 when there is none.

use vstd::prelude::*;
use crate::models::{Category, Priority, StorageData, StorageError, Task};
use crate::text::{contains_text, decimal, lower_of, lowercase, occurs_in, with_number};
use crate::time::Timestamp;

verus! {

broadcast use vstd::seq_lib::group_seq_properties;

/// Selects tasks by category, priority and completion; an absent criterion
/// admits every task.
#[derive(Clone, Copy, Debug, PartialEq, Eq, Structural)]
pub struct TaskFilter {
    pub category_id: Option<u64>,
    pub priority: Option<Priority>,
    pub completed: Option<bool>,
}

impl TaskFilter {
    pub open spec fn admits(self, t: Task) -> bool {
        &&& (self.category_id matches Some(c) ==> t.category_id == c)
        &&& (self.priority matches Some(p) ==> t.priority == p)
        &&& (self.completed matches Some(b) ==> t.completed == b)
    }

    pub fn accepts(&self, t: &Task) -> (r: bool)
        ensures
            r == self.admits(*t),
    {
        let c = match self.category_id {
            Some(c) => t.category_id == c,
            None => true,
        };
        let p = match self.priority {
            Some(p) => t.priority == p,
            None => true,
        };
        let d = match self.completed {
            Some(b) => t.completed == b,
            None => true,
        };
        c && p && d
    }
}

/// The largest task id in `tasks`, 0 when there is none.
pub open spec fn max_task_id(tasks: Seq<Task>) -> nat
    decreases tasks.len(),
{
    if tasks.len() == 0 {
        0
    } else {
        let m = max_task_id(tasks.drop_last());
        if tasks.last().id > m { tasks.last().id as nat } else { m }
    }
}

/// The largest category id in `cats`, 0 when there is none.
pub open spec fn max_category_id(cats: Seq<Category>) -> nat
    decreases cats.len(),
{
    if cats.len() == 0 {
        0
    } else {
        let m = max_category_id(cats.drop_last());
        if cats.last().id > m { cats.last().id as nat } else { m }
    }
}

/// The message of a failure on a task id that is not stored.
pub open spec fn missing_task_message(id: u64) -> Seq<char> {
    "Task with id "@ + decimal(id as nat) + " not found"@
}

/// The message of a failure on a category id that is not stored.
pub open spec fn missing_category_message(id: u64) -> Seq<char> {
    "Category with id "@ + decimal(id as nat) + " not found"@
}

/// The message of a refused deletion of a category that tasks still use.
pub open spec fn category_in_use_message(id: u64) -> Seq<char> {
    "Cannot delete category "@ + decimal(id as nat) + ": it has associated tasks"@
}

/// `r` is a storage error with message `m`, and nothing changed.
pub open spec fn failed_with(r: Result<(), StorageError>, m: Seq<char>) -> bool {
    r matches Err(StorageError::Storage(t)) && t@ == m
}

/// The index of the first task with id `id`.
pub open spec fn first_task_with_id(tasks: Seq<Task>, id: u64, i: int) -> bool {
    0 <= i < tasks.len() && tasks[i].id == id && forall|k: int| 0 <= k < i ==> (#[trigger] tasks[k]).id != id
}

/// The index of the first category with id `id`.
pub open spec fn first_category_with_id(cats: Seq<Category>, id: u64, i: int) -> bool {
    0 <= i < cats.len() && cats[i].id == id && forall|k: int| 0 <= k < i ==> (#[trigger] cats[k]).id != id
}

pub open spec fn has_task_id(tasks: Seq<Task>, id: u64) -> bool {
    exists|i: int| 0 <= i < tasks.len() && (#[trigger] tasks[i]).id == id
}

/// Some task is filed under category `id`.
pub open spec fn category_in_use(tasks: Seq<Task>, id: u64) -> bool {
    exists|i: int| 0 <= i < tasks.len() && (#[trigger] tasks[i]).category_id == id
}

/// A task that a purge with cut-off `threshold` keeps: every task outside
/// category 0, and those in it that were updated after the cut-off.
pub open spec fn survives_purge(t: Task, threshold: Timestamp) -> bool {
    t.category_id != 0 || t.updated_at.is_after(threshold)
}

/// The first index in `tasks` with id `id`, if any.
fn find_task(tasks: &Vec<Task>, id: u64) -> (r: Option<usize>)
    ensures
        r matches Some(i) ==> first_task_with_id(tasks@, id, i as int),
        r is None ==> !has_task_id(tasks@, id),
{
    let mut i: usize = 0;
    while i < tasks.len()
        invariant
            i <= tasks@.len(),
            forall|k: int| 0 <= k < i ==> (#[trigger] tasks@[k]).id != id,
        decreases tasks@.len() - i,
    {
        if tasks[i].id == id {
            return Some(i);
        }
        i += 1;
    }
    None
}

/// The first index in `cats` with id `id`, if any.
pub fn find_category(cats: &Vec<Category>, id: u64) -> (r: Option<usize>)
    ensures
        r matches Some(i) ==> first_category_with_id(cats@, id, i as int),
        r is None ==> !crate::models::has_category(cats@, id),
{
    let mut i: usize = 0;
    while i < cats.len()
        invariant
            i <= cats@.len(),
            forall|k: int| 0 <= k < i ==> (#[trigger] cats@[k]).id != id,
        decreases cats@.len() - i,
    {
        if cats[i].id == id {
            return Some(i);
        }
        i += 1;
    }
    None
}

impl StorageData {
    /// The id that the next new task gets: one more than the largest in use.
    pub fn next_task_id(&self) -> (r: Result<u64, StorageError>)
        ensures
            max_task_id(self.tasks@) < u64::MAX ==> r == Ok::<u64, StorageError>((max_task_id(self.tasks@) + 1) as u64),
            max_task_id(self.tasks@) >= u64::MAX ==> r matches Err(StorageError::Storage(_)),
    {
        let mut m: u64 = 0;
        let mut i: usize = 0;
        while i < self.tasks.len()
            invariant
                i <= self.tasks@.len(),
                m as nat == max_task_id(self.tasks@.subrange(0, i as int)),
            decreases self.tasks@.len() - i,
        {
            assert(self.tasks@.subrange(0, i + 1).drop_last() =~= self.tasks@.subrange(0, i as int));
            if self.tasks[i].id > m {
                m = self.tasks[i].id;
            }
            i += 1;
        }
        assert(self.tasks@.subrange(0, i as int) =~= self.tasks@);
        if m == u64::MAX {
            Err(StorageError::Storage("no task id is left".to_string()))
        } else {
            Ok(m + 1)
        }
    }

    /// The id that the next new category gets: one more than the largest in use.
    pub fn next_category_id(&self) -> (r: Result<u64, StorageError>)
        ensures
            max_category_id(self.categories@) < u64::MAX
                ==> r == Ok::<u64, StorageError>((max_category_id(self.categories@) + 1) as u64),
            max_category_id(self.categories@) >= u64::MAX ==> r matches Err(StorageError::Storage(_)),
    {
        let mut m: u64 = 0;
        let mut i: usize = 0;
        while i < self.categories.len()
            invariant
                i <= self.categories@.len(),
                m as nat == max_category_id(self.categories@.subrange(0, i as int)),
            decreases self.categories@.len() - i,
        {
            assert(self.categories@.subrange(0, i + 1).drop_last() =~= self.categories@.subrange(0, i as int));
            if self.categories[i].id > m {
                m = self.categories[i].id;
            }
            i += 1;
        }
        assert(self.categories@.subrange(0, i as int) =~= self.categories@);
        if m == u64::MAX {
            Err(StorageError::Storage("no category id is left".to_string()))
        } else {
            Ok(m + 1)
        }
    }

    /// Appends a task. A task with the placeholder id 0 gets the next free id;
    /// the id the task is stored under is returned.
    pub fn add_task(&mut self, task: Task) -> (r: Result<u64, StorageError>)
        ensures
            final(self).categories == old(self).categories,
            final(self).config == old(self).config,
            final(self).current_category == old(self).current_category,
            task.id != 0 ==> r == Ok::<u64, StorageError>(task.id),
            task.id == 0 && max_task_id(old(self).tasks@) < u64::MAX
                ==> r == Ok::<u64, StorageError>((max_task_id(old(self).tasks@) + 1) as u64),
            r matches Ok(id) ==> final(self).tasks@ == old(self).tasks@.push(Task { id: id, ..task }),
            r is Err ==> task.id == 0 && max_task_id(old(self).tasks@) >= u64::MAX && *final(self) == *old(self),
    {
        let mut task = task;
        if task.id == 0 {
            match self.next_task_id() {
                Ok(id) => task.id = id,
                Err(e) => return Err(e),
            }
        }
        let id = task.id;
        self.tasks.push(task);
        Ok(id)
    }

    /// Removes every task with id `task_id`; fails, changing nothing, when
    /// there is none.
    pub fn delete_task(&mut self, task_id: u64) -> (r: Result<(), StorageError>)
        ensures
            !has_task_id(old(self).tasks@, task_id) ==> failed_with(r, missing_task_message(task_id)) && *final(self) == *old(self),
            has_task_id(old(self).tasks@, task_id) ==> r is Ok
                && final(self).tasks@ == old(self).tasks@.filter(|t: Task| t.id != task_id),
            final(self).categories == old(self).categories,
            final(self).config == old(self).config,
            final(self).current_category == old(self).current_category,
    {
        if find_task(&self.tasks, task_id).is_none() {
            return Err(StorageError::Storage(with_number("Task with id ", task_id, " not found")));
        }
        let mut kept: Vec<Task> = Vec::new();
        let mut i: usize = 0;
        while i < self.tasks.len()
            invariant
                i <= self.tasks@.len(),
                kept@ == self.tasks@.subrange(0, i as int).filter(|t: Task| t.id != task_id),
            decreases self.tasks@.len() - i,
        {
            proof {
                self.tasks@.subrange(0, i as int).lemma_filter_push(self.tasks@[i as int], |t: Task| t.id != task_id);
                assert(self.tasks@.subrange(0, i as int).push(self.tasks@[i as int]) =~= self.tasks@.subrange(0, i + 1));
            }
            if self.tasks[i].id != task_id {
                kept.push(self.tasks[i].duplicate());
            }
            i += 1;
        }
        assert(self.tasks@.subrange(0, i as int) =~= self.tasks@);
        self.tasks = kept;
        Ok(())
    }

    /// Replaces the first task that has the same id as `task`; fails, changing
    /// nothing, when there is none.
    pub fn update_task(&mut self, task: Task) -> (r: Result<(), StorageError>)
        ensures
            !has_task_id(old(self).tasks@, task.id) ==> failed_with(r, missing_task_message(task.id)) && *final(self) == *old(self),
            has_task_id(old(self).tasks@, task.id) ==> r is Ok && exists|i: int|
                #[trigger] first_task_with_id(old(self).tasks@, task.id, i)
                && final(self).tasks@ == old(self).tasks@.update(i, task),
            final(self).categories == old(self).categories,
            final(self).config == old(self).config,
            final(self).current_category == old(self).current_category,
    {
        match find_task(&self.tasks, task.id) {
            Some(i) => {
                self.tasks.set(i, task);
                Ok(())
            },
            None => Err(StorageError::Storage(with_number("Task with id ", task.id, " not found"))),
        }
    }

    /// A copy of the first task with id `task_id`.
    pub fn get_task(&self, task_id: u64) -> (r: Option<Task>)
        ensures
            r matches Some(t) ==> exists|i: int| #[trigger] first_task_with_id(self.tasks@, task_id, i) && t == self.tasks@[i],
            r is None ==> !has_task_id(self.tasks@, task_id),
    {
        match find_task(&self.tasks, task_id) {
            Some(i) => Some(self.tasks[i].duplicate()),
            None => None,
        }
    }

    /// Appends a category. A category with the placeholder id 0 gets the next
    /// free id; the id the category is stored under is returned.
    pub fn add_category(&mut self, category: Category) -> (r: Result<u64, StorageError>)
        ensures
            final(self).tasks == old(self).tasks,
            final(self).config == old(self).config,
            final(self).current_category == old(self).current_category,
            category.id != 0 ==> r == Ok::<u64, StorageError>(category.id),
            category.id == 0 && max_category_id(old(self).categories@) < u64::MAX
                ==> r == Ok::<u64, StorageError>((max_category_id(old(self).categories@) + 1) as u64),
            r matches Ok(id) ==> final(self).categories@ == old(self).categories@.push(Category { id: id, ..category }),
            r is Err ==> category.id == 0 && max_category_id(old(self).categories@) >= u64::MAX && *final(self) == *old(self),
    {
        let mut category = category;
        if category.id == 0 {
            match self.next_category_id() {
                Ok(id) => category.id = id,
                Err(e) => return Err(e),
            }
        }
        let id = category.id;
        self.categories.push(category);
        Ok(id)
    }

    /// Removes the categories with id `category_id`; refused, changing
    /// nothing, when there is none, or while some task is filed under that id.
    pub fn delete_category(&mut self, category_id: u64) -> (r: Result<(), StorageError>)
        ensures
            !crate::models::has_category(old(self).categories@, category_id)
                ==> failed_with(r, missing_category_message(category_id)) && *final(self) == *old(self),
            crate::models::has_category(old(self).categories@, category_id) && category_in_use(old(self).tasks@, category_id)
                ==> failed_with(r, category_in_use_message(category_id)) && *final(self) == *old(self),
            crate::models::has_category(old(self).categories@, category_id) && !category_in_use(old(self).tasks@, category_id) ==> r is Ok
                && final(self).categories@ == old(self).categories@.filter(|c: Category| c.id != category_id),
            final(self).tasks == old(self).tasks,
            final(self).config == old(self).config,
            final(self).current_category == old(self).current_category,
    {
        if find_category(&self.categories, category_id).is_none() {
            return Err(StorageError::Storage(with_number("Category with id ", category_id, " not found")));
        }
        let mut i: usize = 0;
        while i < self.tasks.len()
            invariant
                crate::models::has_category(self.categories@, category_id),
                i <= self.tasks@.len(),
                forall|k: int| 0 <= k < i ==> (#[trigger] self.tasks@[k]).category_id != category_id,
            decreases self.tasks@.len() - i,
        {
            if self.tasks[i].category_id == category_id {
                return Err(StorageError::Storage(with_number("Cannot delete category ", category_id, ": it has associated tasks")));
            }
            i += 1;
        }
        let mut kept: Vec<Category> = Vec::new();
        let mut j: usize = 0;
        while j < self.categories.len()
            invariant
                j <= self.categories@.len(),
                kept@ == self.categories@.subrange(0, j as int).filter(|c: Category| c.id != category_id),
            decreases self.categories@.len() - j,
        {
            proof {
                self.categories@.subrange(0, j as int).lemma_filter_push(self.categories@[j as int], |c: Category| c.id != category_id);
                assert(self.categories@.subrange(0, j as int).push(self.categories@[j as int]) =~= self.categories@.subrange(0, j + 1));
            }
            if self.categories[j].id != category_id {
                kept.push(self.categories[j].duplicate());
            }
            j += 1;
        }
        assert(self.categories@.subrange(0, j as int) =~= self.categories@);
        self.categories = kept;
        Ok(())
    }

    /// Replaces the first category that has the same id as `category`; fails,
    /// changing nothing, when there is none.
    pub fn update_category(&mut self, category: Category) -> (r: Result<(), StorageError>)
        ensures
            !crate::models::has_category(old(self).categories@, category.id)
                ==> failed_with(r, missing_category_message(category.id)) && *final(self) == *old(self),
            crate::models::has_category(old(self).categories@, category.id) ==> r is Ok && exists|i: int|
                #[trigger] first_category_with_id(old(self).categories@, category.id, i)
                && final(self).categories@ == old(self).categories@.update(i, category),
            final(self).tasks == old(self).tasks,
            final(self).config == old(self).config,
            final(self).current_category == old(self).current_category,
    {
        match find_category(&self.categories, category.id) {
            Some(i) => {
                self.categories.set(i, category);
                Ok(())
            },
            None => Err(StorageError::Storage(with_number("Category with id ", category.id, " not found"))),
        }
    }

    /// A copy of the first category with id `category_id`.
    pub fn get_category(&self, category_id: u64) -> (r: Option<Category>)
        ensures
            r matches Some(c) ==> exists|i: int| #[trigger] first_category_with_id(self.categories@, category_id, i)
                && c == self.categories@[i],
            r is None ==> !crate::models::has_category(self.categories@, category_id),
    {
        match find_category(&self.categories, category_id) {
            Some(i) => Some(self.categories[i].duplicate()),
            None => None,
        }
    }

    /// The tasks that `filter` admits, in stored order.
    pub fn filter_tasks(&self, filter: TaskFilter) -> (r: Vec<Task>)
        ensures
            r@ == self.tasks@.filter(|t: Task| filter.admits(t)),
    {
        let mut out: Vec<Task> = Vec::new();
        let mut i: usize = 0;
        while i < self.tasks.len()
            invariant
                i <= self.tasks@.len(),
                out@ == self.tasks@.subrange(0, i as int).filter(|t: Task| filter.admits(t)),
            decreases self.tasks@.len() - i,
        {
            proof {
                self.tasks@.subrange(0, i as int).lemma_filter_push(self.tasks@[i as int], |t: Task| filter.admits(t));
                assert(self.tasks@.subrange(0, i as int).push(self.tasks@[i as int]) =~= self.tasks@.subrange(0, i + 1));
            }
            if filter.accepts(&self.tasks[i]) {
                out.push(self.tasks[i].duplicate());
            }
            i += 1;
        }
        assert(self.tasks@.subrange(0, i as int) =~= self.tasks@);
        out
    }

    /// The tasks whose title contains `query`, case ignored, in stored order.
    pub fn search_tasks(&self, query: &str) -> (r: Vec<Task>)
        ensures
            r@ == self.tasks@.filter(|t: Task| occurs_in(lower_of(query@), lower_of(t.title@))),
    {
        let q = lowercase(query);
        let mut out: Vec<Task> = Vec::new();
        let mut i: usize = 0;
        while i < self.tasks.len()
            invariant
                q@ == lower_of(query@),
                i <= self.tasks@.len(),
                out@ == self.tasks@.subrange(0, i as int).filter(|t: Task| occurs_in(lower_of(query@), lower_of(t.title@))),
            decreases self.tasks@.len() - i,
        {
            proof {
                self.tasks@.subrange(0, i as int).lemma_filter_push(self.tasks@[i as int],
                    |t: Task| occurs_in(lower_of(query@), lower_of(t.title@)));
                assert(self.tasks@.subrange(0, i as int).push(self.tasks@[i as int]) =~= self.tasks@.subrange(0, i + 1));
            }
            let title = lowercase(self.tasks[i].title.as_str());
            if contains_text(title.as_str(), q.as_str()) {
                out.push(self.tasks[i].duplicate());
            }
            i += 1;
        }
        assert(self.tasks@.subrange(0, i as int) =~= self.tasks@);
        out
    }

    /// The tasks whose title equals `title`, case ignored, in stored order.
    pub fn tasks_by_title(&self, title: &str) -> (r: Vec<Task>)
        ensures
            r@ == self.tasks@.filter(|t: Task| lower_of(t.title@) == lower_of(title@)),
    {
        let q = lowercase(title);
        let mut out: Vec<Task> = Vec::new();
        let mut i: usize = 0;
        while i < self.tasks.len()
            invariant
                q@ == lower_of(title@),
                i <= self.tasks@.len(),
                out@ == self.tasks@.subrange(0, i as int).filter(|t: Task| lower_of(t.title@) == lower_of(title@)),
            decreases self.tasks@.len() - i,
        {
            proof {
                self.tasks@.subrange(0, i as int).lemma_filter_push(self.tasks@[i as int],
                    |t: Task| lower_of(t.title@) == lower_of(title@));
                assert(self.tasks@.subrange(0, i as int).push(self.tasks@[i as int]) =~= self.tasks@.subrange(0, i + 1));
            }
            let low = lowercase(self.tasks[i].title.as_str());
            if low == q {
                out.push(self.tasks[i].duplicate());
            }
            i += 1;
        }
        assert(self.tasks@.subrange(0, i as int) =~= self.tasks@);
        out
    }

    /// A copy of the first category whose name equals `name`, case ignored.
    pub fn category_by_name(&self, name: &str) -> (r: Option<Category>)
        ensures
            r matches Some(c) ==> exists|i: int| 0 <= i < self.categories@.len()
                && #[trigger] self.categories@[i] == c && lower_of(c.name@) == lower_of(name@)
                && forall|k: int| 0 <= k < i ==> lower_of((#[trigger] self.categories@[k]).name@) != lower_of(name@),
            r is None ==> forall|k: int| 0 <= k < self.categories@.len()
                ==> lower_of((#[trigger] self.categories@[k]).name@) != lower_of(name@),
    {
        let q = lowercase(name);
        let mut i: usize = 0;
        while i < self.categories.len()
            invariant
                q@ == lower_of(name@),
                i <= self.categories@.len(),
                forall|k: int| 0 <= k < i ==> lower_of((#[trigger] self.categories@[k]).name@) != lower_of(name@),
            decreases self.categories@.len() - i,
        {
            let low = lowercase(self.categories[i].name.as_str());
            if low == q {
                return Some(self.categories[i].duplicate());
            }
            i += 1;
        }
        None
    }

    /// Files the first task with id `task_id` under `new_category_id` and
    /// stamps it as updated; fails, changing nothing, when there is none.
    pub fn move_task_to_category(&mut self, task_id: u64, new_category_id: u64) -> (r: Result<(), StorageError>)
        ensures
            !has_task_id(old(self).tasks@, task_id) ==> failed_with(r, missing_task_message(task_id)) && *final(self) == *old(self),
            has_task_id(old(self).tasks@, task_id) ==> r is Ok && exists|i: int|
                #[trigger] first_task_with_id(old(self).tasks@, task_id, i)
                && final(self).tasks@ == old(self).tasks@.update(i, Task {
                    category_id: new_category_id,
                    updated_at: final(self).tasks@[i].updated_at,
                    ..old(self).tasks@[i]
                })
                && final(self).tasks@[i].updated_at.wf(),
            final(self).categories == old(self).categories,
            final(self).config == old(self).config,
            final(self).current_category == old(self).current_category,
    {
        match find_task(&self.tasks, task_id) {
            Some(i) => {
                let mut t = self.tasks[i].duplicate();
                t.move_to_category(new_category_id);
                self.tasks.set(i, t);
                Ok(())
            },
            None => Err(StorageError::Storage(with_number("Task with id ", task_id, " not found"))),
        }
    }

    /// Moves the task to category 0, where deleted tasks wait for a purge.
    pub fn soft_delete_task(&mut self, task_id: u64) -> (r: Result<(), StorageError>)
        ensures
            !has_task_id(old(self).tasks@, task_id) ==> failed_with(r, missing_task_message(task_id)) && *final(self) == *old(self),
            has_task_id(old(self).tasks@, task_id) ==> r is Ok && exists|i: int|
                #[trigger] first_task_with_id(old(self).tasks@, task_id, i)
                && final(self).tasks@ == old(self).tasks@.update(i, Task {
                    category_id: 0,
                    updated_at: final(self).tasks@[i].updated_at,
                    ..old(self).tasks@[i]
                })
                && final(self).tasks@[i].updated_at.wf(),
            final(self).categories == old(self).categories,
            final(self).config == old(self).config,
            final(self).current_category == old(self).current_category,
    {
        self.move_task_to_category(task_id, 0)
    }

    /// Drops every task of category 0 that was last updated at or before
    /// `days_threshold` days before `now`; all other tasks stay, whatever their age.
    pub fn purge_deleted_tasks(&mut self, days_threshold: u32, now: Timestamp)
        requires
            now.wf(),
        ensures
            final(self).tasks@ == old(self).tasks@.filter(|t: Task| survives_purge(t, now.days_before(days_threshold))),
            final(self).categories == old(self).categories,
            final(self).config == old(self).config,
            final(self).current_category == old(self).current_category,
    {
        let threshold = now.minus_days(days_threshold);
        let mut kept: Vec<Task> = Vec::new();
        let mut i: usize = 0;
        while i < self.tasks.len()
            invariant
                threshold == now.days_before(days_threshold),
                i <= self.tasks@.len(),
                kept@ == self.tasks@.subrange(0, i as int).filter(|t: Task| survives_purge(t, threshold)),
            decreases self.tasks@.len() - i,
        {
            proof {
                self.tasks@.subrange(0, i as int).lemma_filter_push(self.tasks@[i as int], |t: Task| survives_purge(t, threshold));
                assert(self.tasks@.subrange(0, i as int).push(self.tasks@[i as int]) =~= self.tasks@.subrange(0, i + 1));
            }
            let t = &self.tasks[i];
            if t.category_id != 0 || t.updated_at.after(&threshold) {
                kept.push(t.duplicate());
            }
            i += 1;
        }
        assert(self.tasks@.subrange(0, i as int) =~= self.tasks@);
        self.tasks = kept;
    }
}

} // verus!
