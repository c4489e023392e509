//! Category management on a snapshot: adding with a unique name, deleting
//! with reassignment of the tasks filed under the category, renaming,
//! selecting the current category, and ordering.

use vstd::prelude::*;
use crate::models::{has_category, Category, CategoryError, StorageData, StorageError, Task};
use crate::storage::{failed_with, find_category, first_category_with_id, max_category_id, missing_category_message};
use crate::text::{ascii_same_folded, blank, decimal, lower_of, lowercase, with_number};

verus! {

broadcast use vstd::seq_lib::group_seq_properties;

/// Some category in `cats` has the name `name`, case ignored.
pub open spec fn name_taken(cats: Seq<Category>, name: Seq<char>) -> bool {
    exists|j: int| 0 <= j < cats.len() && lower_of((#[trigger] cats[j]).name@) == lower_of(name)
}

/// Some category in `cats` has a name that equals `name` once both are
/// lower-cased as ASCII.
pub open spec fn ascii_name_taken(cats: Seq<Category>, name: Seq<char>) -> bool {
    exists|j: int| 0 <= j < cats.len() && ascii_same_folded((#[trigger] cats[j]).name@, name)
}

/// Whether some category in `cats` has the name `name`, case ignored.
pub fn name_in_use(cats: &Vec<Category>, name: &str) -> (r: bool)
    ensures
        r == name_taken(cats@, name@),
        ascii_name_taken(cats@, name@) ==> r,
{
    let q = lowercase(name);
    let mut j: usize = 0;
    while j < cats.len()
        invariant
            q@ == lower_of(name@),
            crate::text::ascii_text(name@) ==> q@ == name@.map_values(|c: char| crate::text::ascii_lower(c)),
            j <= cats@.len(),
            forall|k: int| 0 <= k < j ==> lower_of((#[trigger] cats@[k]).name@) != lower_of(name@),
            forall|k: int| 0 <= k < j ==> !ascii_same_folded((#[trigger] cats@[k]).name@, name@),
        decreases cats@.len() - j,
    {
        let low = lowercase(cats[j].name.as_str());
        if low == q {
            return true;
        }
        j += 1;
    }
    false
}

/// The message of a failure on a replacement category that is not stored.
pub open spec fn missing_new_category_message(id: u64) -> Seq<char> {
    "New category with id "@ + decimal(id as nat) + " not found"@
}

/// The task with its category replaced by `to` where it was `from`.
pub open spec fn refile(t: Task, from: u64, to: u64) -> Task {
    if t.category_id == from { Task { category_id: to, ..t } } else { t }
}

impl StorageData {
    /// Adds a category named `name`. The name must hold more than white
    /// space and differ, case ignored, from every stored name. The category
    /// gets the next free id and an order equal to that id.
    pub fn add_named_category(&mut self, name: String, description: Option<String>) -> (r: Result<u64, CategoryError>)
        ensures
            blank(name@) ==> r matches Err(CategoryError::EmptyName),
            !blank(name@) && name_taken(old(self).categories@, name@)
                ==> (r matches Err(CategoryError::DuplicateName(n)) && n == name),
            !blank(name@) && ascii_name_taken(old(self).categories@, name@)
                ==> (r matches Err(CategoryError::DuplicateName(n)) && n == name),
            r is Err ==> *final(self) == *old(self),
            !blank(name@) && !name_taken(old(self).categories@, name@) && max_category_id(old(self).categories@) < u64::MAX
                ==> r is Ok,
            r matches Ok(id) ==> id == max_category_id(old(self).categories@) + 1
                && final(self).tasks == old(self).tasks
                && final(self).config == old(self).config
                && final(self).current_category == old(self).current_category
                && final(self).categories@.len() == old(self).categories@.len() + 1
                && final(self).categories@.drop_last() == old(self).categories@
                && final(self).categories@.last().id == id
                && final(self).categories@.last().name == name
                && final(self).categories@.last().description == description
                && final(self).categories@.last().order == id as u32
                && final(self).categories@.last().created_at.wf(),
    {
        if crate::text::is_blank(name.as_str()) {
            return Err(CategoryError::EmptyName);
        }
        if name_in_use(&self.categories, name.as_str()) {
            return Err(CategoryError::DuplicateName(name));
        }
        let id = match self.next_category_id() {
            Ok(id) => id,
            Err(e) => return Err(CategoryError::Storage(e)),
        };
        let mut category = match Category::new(name, description) {
            Ok(c) => c,
            Err(e) => return Err(e),
        };
        category.id = id;
        category.set_order(id as u32);
        self.categories.push(category);
        assert(self.categories@.drop_last() =~= old(self).categories@);
        Ok(id)
    }

    /// Deletes category `category_id`. Its tasks move to `new_category_id`
    /// when one is given (it must exist), else to category 0. The selection
    /// is cleared when it pointed at the deleted category.
    pub fn delete_category_reassigning(&mut self, category_id: u64, new_category_id: Option<u64>) -> (r: Result<(), StorageError>)
        ensures
            !has_category(old(self).categories@, category_id) ==> failed_with(r, missing_category_message(category_id)),
            has_category(old(self).categories@, category_id) ==> match new_category_id {
                Some(n) => !has_category(old(self).categories@, n) ==> failed_with(r, missing_new_category_message(n)),
                None => true,
            },
            r is Err ==> *final(self) == *old(self),
            has_category(old(self).categories@, category_id) && (new_category_id matches Some(n)
                ==> has_category(old(self).categories@, n)) ==> r is Ok,
            r is Ok ==> {
                let to = match new_category_id { Some(n) => n, None => 0 };
                &&& final(self).tasks@ == old(self).tasks@.map_values(|t: Task| refile(t, category_id, to))
                &&& final(self).categories@ == old(self).categories@.filter(|c: Category| c.id != category_id)
                &&& final(self).current_category == (if old(self).current_category == Some(category_id) {
                    None
                } else {
                    old(self).current_category
                })
                &&& final(self).config == old(self).config
            },
    {
        if find_category(&self.categories, category_id).is_none() {
            return Err(StorageError::Storage(with_number("Category with id ", category_id, " not found")));
        }
        let to = match new_category_id {
            Some(n) => {
                if find_category(&self.categories, n).is_none() {
                    return Err(StorageError::Storage(with_number("New category with id ", n, " not found")));
                }
                n
            },
            None => 0,
        };
        let mut moved: Vec<Task> = Vec::new();
        let mut i: usize = 0;
        while i < self.tasks.len()
            invariant
                i <= self.tasks@.len(),
                moved@ == self.tasks@.subrange(0, i as int).map_values(|t: Task| refile(t, category_id, to)),
            decreases self.tasks@.len() - i,
        {
            let mut t = self.tasks[i].duplicate();
            if t.category_id == category_id {
                t.category_id = to;
            }
            moved.push(t);
            assert(moved@ =~= self.tasks@.subrange(0, i + 1).map_values(|t: Task| refile(t, category_id, to)));
            i += 1;
        }
        assert(self.tasks@.subrange(0, i as int) =~= self.tasks@);
        let mut kept: Vec<Category> = Vec::new();
        let mut j: usize = 0;
        while j < self.categories.len()
            invariant
                j <= self.categories@.len(),
                kept@ == self.categories@.subrange(0, j as int).filter(|c: Category| c.id != category_id),
            decreases self.categories@.len() - j,
        {
            proof {
                self.categories@.subrange(0, j as int).lemma_filter_push(self.categories@[j as int], |c: Category| c.id != category_id);
                assert(self.categories@.subrange(0, j as int).push(self.categories@[j as int]) =~= self.categories@.subrange(0, j + 1));
            }
            if self.categories[j].id != category_id {
                kept.push(self.categories[j].duplicate());
            }
            j += 1;
        }
        assert(self.categories@.subrange(0, j as int) =~= self.categories@);
        self.tasks = moved;
        self.categories = kept;
        if self.current_category == Some(category_id) {
            self.current_category = None;
        }
        Ok(())
    }

    /// Renames category `category_id`. Refused when any stored category,
    /// this one included, already has the new name ignoring case, when the
    /// name is blank, or when the category does not exist.
    pub fn rename_category(&mut self, category_id: u64, new_name: String) -> (r: Result<(), StorageError>)
        ensures
            name_taken(old(self).categories@, new_name@)
                ==> (r matches Err(StorageError::DuplicateCategory(n)) && n == new_name),
            !name_taken(old(self).categories@, new_name@) && !has_category(old(self).categories@, category_id)
                ==> failed_with(r, missing_category_message(category_id)),
            !name_taken(old(self).categories@, new_name@) && has_category(old(self).categories@, category_id)
                && blank(new_name@) ==> (r matches Err(StorageError::Model(_))),
            r is Err ==> *final(self) == *old(self),
            !name_taken(old(self).categories@, new_name@) && has_category(old(self).categories@, category_id)
                && !blank(new_name@) ==> r is Ok,
            r is Ok ==> exists|i: int| #[trigger] first_category_with_id(old(self).categories@, category_id, i)
                && final(self).categories@ == old(self).categories@.update(i,
                    Category { name: new_name, ..old(self).categories@[i] })
                && final(self).tasks == old(self).tasks
                && final(self).config == old(self).config
                && final(self).current_category == old(self).current_category,
    {
        if name_in_use(&self.categories, new_name.as_str()) {
            return Err(StorageError::DuplicateCategory(new_name));
        }
        match find_category(&self.categories, category_id) {
            Some(i) => {
                let mut c = self.categories[i].duplicate();
                match c.update_name(new_name) {
                    Ok(()) => {},
                    Err(_) => return Err(StorageError::Model("category name cannot be empty".to_string())),
                }
                self.categories.set(i, c);
                Ok(())
            },
            None => Err(StorageError::Storage(with_number("Category with id ", category_id, " not found"))),
        }
    }

    /// Makes category `category_id` the current one, if it exists.
    pub fn select_category(&mut self, category_id: u64) -> (r: Result<(), StorageError>)
        ensures
            has_category(old(self).categories@, category_id) ==> r is Ok
                && *final(self) == (StorageData { current_category: Some(category_id), ..*old(self) }),
            !has_category(old(self).categories@, category_id)
                ==> failed_with(r, missing_category_message(category_id)) && *final(self) == *old(self),
    {
        if crate::models::contains_category(&self.categories, category_id) {
            self.current_category = Some(category_id);
            Ok(())
        } else {
            Err(StorageError::Storage(with_number("Category with id ", category_id, " not found")))
        }
    }

    /// Sets the order of the first category with id `category_id`.
    pub fn set_category_order(&mut self, category_id: u64, new_order: u32) -> (r: Result<(), StorageError>)
        ensures
            !has_category(old(self).categories@, category_id)
                ==> failed_with(r, missing_category_message(category_id)) && *final(self) == *old(self),
            has_category(old(self).categories@, category_id) ==> r is Ok && exists|i: int|
                #[trigger] first_category_with_id(old(self).categories@, category_id, i)
                && final(self).categories@ == old(self).categories@.update(i,
                    Category { order: new_order, ..old(self).categories@[i] })
                && final(self).tasks == old(self).tasks
                && final(self).config == old(self).config
                && final(self).current_category == old(self).current_category,
    {
        match find_category(&self.categories, category_id) {
            Some(i) => {
                let mut c = self.categories[i].duplicate();
                c.set_order(new_order);
                self.categories.set(i, c);
                Ok(())
            },
            None => Err(StorageError::Storage(with_number("Category with id ", category_id, " not found"))),
        }
    }

    /// Gives the categories listed in `category_ids` the orders 0, 1, 2, ...
    /// in list order (an id listed twice keeps its last position). Refused,
    /// changing nothing, when an id is unknown.
    pub fn reorder_categories(&mut self, category_ids: &Vec<u64>) -> (r: Result<(), StorageError>)
        requires
            category_ids@.len() <= u32::MAX,
        ensures
            (exists|p: int| 0 <= p < category_ids@.len() && !has_category(old(self).categories@, #[trigger] category_ids@[p]))
                ==> (r matches Err(StorageError::Storage(_)) && *final(self) == *old(self)),
            (forall|p: int| 0 <= p < category_ids@.len() ==> has_category(old(self).categories@, #[trigger] category_ids@[p]))
                ==> r is Ok,
            r is Ok ==> final(self).categories@.len() == old(self).categories@.len()
                && final(self).tasks == old(self).tasks
                && final(self).config == old(self).config
                && final(self).current_category == old(self).current_category
                && (forall|j: int| 0 <= j < final(self).categories@.len() ==> #[trigger] final(self).categories@[j]
                    == (Category { order: order_after(old(self).categories@, category_ids@, j), ..old(self).categories@[j] })),
    {
        let mut p: usize = 0;
        while p < category_ids.len()
            invariant
                p <= category_ids@.len(),
                forall|q: int| 0 <= q < p ==> has_category(self.categories@, #[trigger] category_ids@[q]),
            decreases category_ids@.len() - p,
        {
            if find_category(&self.categories, category_ids[p]).is_none() {
                return Err(StorageError::Storage(with_number("Category with id ", category_ids[p], " not found")));
            }
            p += 1;
        }
        let ghost before = self.categories@;
        let mut p: usize = 0;
        while p < category_ids.len()
            invariant
                category_ids@.len() <= u32::MAX,
                p <= category_ids@.len(),
                self.categories@.len() == before.len(),
                forall|j: int| 0 <= j < self.categories@.len() ==> #[trigger] self.categories@[j]
                    == (Category { order: order_after(before, category_ids@.subrange(0, p as int), j), ..before[j] }),
                self.tasks == old(self).tasks,
                self.config == old(self).config,
                self.current_category == old(self).current_category,
                before == old(self).categories@,
            decreases category_ids@.len() - p,
        {
            let id = category_ids[p];
            let ghost ids_next = category_ids@.subrange(0, p + 1);
            assert(ids_next.drop_last() =~= category_ids@.subrange(0, p as int));
            assert forall|k: int| 0 <= k < self.categories@.len() implies (#[trigger] self.categories@[k]).id == before[k].id by {
                assert(self.categories@[k] == (Category { order: order_after(before, category_ids@.subrange(0, p as int), k), ..before[k] }));
            }
            match find_category(&self.categories, id) {
                Some(i) => {
                    assert forall|k: int| 0 <= k < i implies (#[trigger] before[k]).id != id by {
                        assert(self.categories@[k].id == before[k].id);
                    }
                    assert(self.categories@[i as int].id == before[i as int].id);
                    assert(first_category_with_id(before, id, i as int));
                    let mut c = self.categories[i].duplicate();
                    c.set_order(p as u32);
                    self.categories.set(i, c);
                    assert forall|j: int| 0 <= j < self.categories@.len() implies #[trigger] self.categories@[j]
                        == (Category { order: order_after(before, ids_next, j), ..before[j] }) by {
                        if j != i {
                            assert(!first_category_with_id(before, id, j));
                        }
                    }
                },
                None => {
                    assert forall|j: int| 0 <= j < self.categories@.len() implies #[trigger] self.categories@[j]
                        == (Category { order: order_after(before, ids_next, j), ..before[j] }) by {
                        assert(self.categories@[j].id == before[j].id);
                        assert(!first_category_with_id(before, id, j));
                    }
                },
            }
            p += 1;
        }
        assert(category_ids@.subrange(0, p as int) =~= category_ids@);
        Ok(())
    }
}

/// The order that category `j` of `cats` has after a reorder by `ids`: the
/// last position in `ids` of an id whose first holder is `j`, or its old order.
pub open spec fn order_after(cats: Seq<Category>, ids: Seq<u64>, j: int) -> u32
    decreases ids.len(),
{
    if ids.len() == 0 {
        cats[j].order
    } else if first_category_with_id(cats, ids.last(), j) {
        (ids.len() - 1) as u32
    } else {
        order_after(cats, ids.drop_last(), j)
    }
}

/// `a` sorts at or before `b`, comparing characters by code point (the
/// order of `String`'s comparison).
pub open spec fn text_le(a: Seq<char>, b: Seq<char>) -> bool
    decreases a.len(),
{
    if a.len() == 0 {
        true
    } else if b.len() == 0 {
        false
    } else if (a[0] as u32) != (b[0] as u32) {
        (a[0] as u32) < (b[0] as u32)
    } else {
        text_le(a.drop_first(), b.drop_first())
    }
}

/// What a listing shows: the stored categories with a non-zero id, then `u`.
pub open spec fn listing_input(cats: Seq<Category>, u: Category) -> Seq<Category> {
    cats.filter(|c: Category| c.id != 0).push(u)
}

/// Listing order: by order, then by name.
pub open spec fn listed_before(a: Category, b: Category) -> bool {
    a.order < b.order || (a.order == b.order && text_le(a.name@, b.name@))
}

/// Each category is listed at or before the next.
pub open spec fn listing_sorted(s: Seq<Category>) -> bool {
    forall|j: int| 0 <= j < s.len() - 1 ==> listed_before(#[trigger] s[j], s[j + 1])
}

proof fn lemma_text_le_total(a: Seq<char>, b: Seq<char>)
    ensures
        text_le(a, b) || text_le(b, a),
    decreases a.len(),
{
    if a.len() > 0 && b.len() > 0 && (a[0] as u32) == (b[0] as u32) {
        lemma_text_le_total(a.drop_first(), b.drop_first());
    }
}

proof fn lemma_listed_before_total(a: Category, b: Category)
    ensures
        listed_before(a, b) || listed_before(b, a),
{
    lemma_text_le_total(a.name@, b.name@);
}

/// Compares two names as `String`'s ordering does.
fn name_le(a: &str, b: &str) -> (r: bool)
    ensures
        r == text_le(a@, b@),
{
    let n = a.unicode_len();
    let m = b.unicode_len();
    let mut i: usize = 0;
    while i < n && i < m
        invariant
            n == a@.len(),
            m == b@.len(),
            i <= n,
            i <= m,
            text_le(a@, b@) == text_le(a@.skip(i as int), b@.skip(i as int)),
        decreases n - i,
    {
        let x = a.get_char(i);
        let y = b.get_char(i);
        assert(a@.skip(i as int)[0] == x);
        assert(b@.skip(i as int)[0] == y);
        if (x as u32) != (y as u32) {
            return (x as u32) < (y as u32);
        }
        assert(a@.skip(i as int).drop_first() =~= a@.skip(i + 1));
        assert(b@.skip(i as int).drop_first() =~= b@.skip(i + 1));
        i += 1;
    }
    if i == n {
        assert(a@.skip(i as int).len() == 0);
        true
    } else {
        assert(b@.skip(i as int).len() == 0);
        false
    }
}

fn listing_le(a: &Category, b: &Category) -> (r: bool)
    ensures
        r == listed_before(*a, *b),
{
    a.order < b.order || (a.order == b.order && name_le(a.name.as_str(), b.name.as_str()))
}

impl StorageData {
    /// The categories as listed: every stored category with a non-zero id,
    /// plus "Uncategorized" (id 0, order 0), sorted by order and then name.
    pub fn categories_for_listing(&self) -> (r: Vec<Category>)
        ensures
            listing_sorted(r@),
            exists|u: Category| u.id == 0 && u.name@ == "Uncategorized"@ && u.description is None && u.order == 0
                && r@.to_multiset() == (#[trigger] listing_input(self.categories@, u)).to_multiset(),
    {
        broadcast use vstd::seq_lib::group_to_multiset_ensures;

        let mut items: Vec<Category> = Vec::new();
        let mut j: usize = 0;
        while j < self.categories.len()
            invariant
                j <= self.categories@.len(),
                items@ == self.categories@.subrange(0, j as int).filter(|c: Category| c.id != 0),
            decreases self.categories@.len() - j,
        {
            proof {
                self.categories@.subrange(0, j as int).lemma_filter_push(self.categories@[j as int], |c: Category| c.id != 0);
                assert(self.categories@.subrange(0, j as int).push(self.categories@[j as int]) =~= self.categories@.subrange(0, j + 1));
            }
            if self.categories[j].id != 0 {
                items.push(self.categories[j].duplicate());
            }
            j += 1;
        }
        assert(self.categories@.subrange(0, j as int) =~= self.categories@);
        let uncategorized = Category {
            id: 0,
            name: "Uncategorized".to_string(),
            description: None,
            order: 0,
            created_at: crate::time::Timestamp::now(),
        };
        let ghost u = uncategorized;
        items.push(uncategorized);
        assert(items@ == self.categories@.filter(|c: Category| c.id != 0).push(u));
        let mut out: Vec<Category> = Vec::new();
        let mut i: usize = 0;
        assert(items@.subrange(0, 0) =~= Seq::<Category>::empty());
        while i < items.len()
            invariant
                i <= items@.len(),
                listing_sorted(out@),
                out@.to_multiset() == items@.subrange(0, i as int).to_multiset(),
            decreases items@.len() - i,
        {
            let x = items[i].duplicate();
            let mut k: usize = 0;
            while k < out.len() && listing_le(&out[k], &x)
                invariant
                    k <= out@.len(),
                    forall|q: int| 0 <= q < k ==> listed_before(#[trigger] out@[q], x),
                decreases out@.len() - k,
            {
                k += 1;
            }
            let ghost before = out@;
            proof {
                if k < before.len() {
                    lemma_listed_before_total(before[k as int], x);
                }
            }
            out.insert(k, x);
            proof {
                assert forall|q: int| 0 <= q < out@.len() - 1 implies listed_before(#[trigger] out@[q], out@[q + 1]) by {
                    if q + 1 < k {
                        assert(out@[q] == before[q] && out@[q + 1] == before[q + 1]);
                    } else if q + 1 == k {
                        assert(out@[q] == before[q] && out@[q + 1] == x);
                    } else if q == k {
                        assert(out@[q] == x && out@[q + 1] == before[q]);
                    } else {
                        assert(out@[q] == before[q - 1] && out@[q + 1] == before[q]);
                    }
                }
                assert(items@.subrange(0, i + 1) =~= items@.subrange(0, i as int).push(items@[i as int]));
            }
            i += 1;
        }
        assert(items@.subrange(0, i as int) =~= items@);
        assert(u.id == 0 && u.name@ == "Uncategorized"@ && u.description is None && u.order == 0
            && out@.to_multiset() == listing_input(self.categories@, u).to_multiset());
        out
    }
}

} // verus!
