//! The schema migration planner. A migration has a version, forward SQL and
//! the exact inverse SQL. Applying brings the stored schema version up to
//! the latest migration's; rolling back brings it down to a target. The
//! planner decides which statements run, in which order, and the version
//! stored after each; the caller runs them in one transaction.

use vstd::prelude::*;

verus! {

broadcast use vstd::seq_lib::group_seq_properties;

/// One schema change.
#[derive(Clone, Copy, Debug)]
pub struct Migration {
    pub version: i32,
    pub up: &'static str,
    pub down: &'static str,
}

/// One step of a plan: the SQL to run (none where only the stored version
/// changes), then the version to store.
#[derive(Clone, Copy, Debug)]
pub struct MigrationStep {
    pub sql: Option<&'static str>,
    pub version_after: i32,
}

/// The migrations of this schema, in ascending version order. The initial
/// schema is version 1 and no migration follows it yet.
pub fn migrations() -> (r: Vec<Migration>)
    ensures
        r@.len() == 0,
{
    Vec::new()
}

/// The latest version that `ms` reach, 0 when there is none.
pub open spec fn latest_version(ms: Seq<Migration>) -> i32 {
    if ms.len() == 0 { 0 } else { ms.last().version }
}

pub open spec fn up_step(m: Migration) -> MigrationStep {
    MigrationStep { sql: Some(m.up), version_after: m.version }
}

pub open spec fn down_step(m: Migration) -> MigrationStep {
    MigrationStep { sql: Some(m.down), version_after: (m.version - 1) as i32 }
}

/// The steps that bring version `current` up: nothing when `current` has
/// reached the latest version, else every migration above `current`, in list order.
pub open spec fn apply_plan(current: i32, ms: Seq<Migration>) -> Seq<MigrationStep> {
    if current < latest_version(ms) {
        ms.filter(|m: Migration| m.version > current).map_values(|m: Migration| up_step(m))
    } else {
        Seq::empty()
    }
}

/// The stored version after the steps of a plan have run.
pub open spec fn version_after(current: i32, steps: Seq<MigrationStep>) -> i32 {
    if steps.len() == 0 { current } else { steps.last().version_after }
}

/// The inverse steps of the migrations in `ms` whose version lies in
/// (`target`, `current`], last migration first.
pub open spec fn down_steps(ms: Seq<Migration>, target: i32, current: i32) -> Seq<MigrationStep>
    decreases ms.len(),
{
    if ms.len() == 0 {
        Seq::empty()
    } else {
        let m = ms.last();
        let head = if target < m.version && m.version <= current { seq![down_step(m)] } else { Seq::empty() };
        head + down_steps(ms.drop_last(), target, current)
    }
}

/// The steps that bring version `current` down to `target`: nothing unless
/// `current` is above `target`; from the initial schema (1) to 0 only the
/// stored version changes; else the inverse of each migration in
/// (`target`, `current`], newest first.
pub open spec fn rollback_plan(current: i32, target: i32, ms: Seq<Migration>) -> Seq<MigrationStep> {
    if current <= target {
        Seq::empty()
    } else if target == 0 && current == 1 {
        seq![MigrationStep { sql: None, version_after: 0 }]
    } else {
        down_steps(ms, target, current)
    }
}

/// The version stays within i32 when one is subtracted.
pub open spec fn versions_above_min(ms: Seq<Migration>) -> bool {
    forall|i: int| 0 <= i < ms.len() ==> (#[trigger] ms[i]).version > i32::MIN
}

impl Migration {
    /// The forward step of this migration.
    pub fn apply_step(&self) -> (r: MigrationStep)
        ensures
            r == up_step(*self),
    {
        MigrationStep { sql: Some(self.up), version_after: self.version }
    }

    /// The inverse step of this migration.
    pub fn rollback_step(&self) -> (r: MigrationStep)
        requires
            self.version > i32::MIN,
        ensures
            r == down_step(*self),
    {
        MigrationStep { sql: Some(self.down), version_after: self.version - 1 }
    }
}

/// The plan that applies the pending migrations to version `current`.
pub fn plan_apply(current: i32, ms: &Vec<Migration>) -> (r: Vec<MigrationStep>)
    ensures
        r@ == apply_plan(current, ms@),
{
    let latest: i32 = if ms.len() == 0 { 0 } else { ms[ms.len() - 1].version };
    let mut out: Vec<MigrationStep> = Vec::new();
    if current >= latest {
        return out;
    }
    let mut i: usize = 0;
    while i < ms.len()
        invariant
            i <= ms@.len(),
            out@ == ms@.subrange(0, i as int).filter(|m: Migration| m.version > current).map_values(|m: Migration| up_step(m)),
        decreases ms@.len() - i,
    {
        proof {
            ms@.subrange(0, i as int).lemma_filter_push(ms@[i as int], |m: Migration| m.version > current);
            assert(ms@.subrange(0, i as int).push(ms@[i as int]) =~= ms@.subrange(0, i + 1));
        }
        if ms[i].version > current {
            out.push(ms[i].apply_step());
        }
        assert(out@ =~= ms@.subrange(0, i + 1).filter(|m: Migration| m.version > current).map_values(|m: Migration| up_step(m)));
        i += 1;
    }
    assert(ms@.subrange(0, i as int) =~= ms@);
    out
}

/// The plan that rolls version `current` back to `target`.
pub fn plan_rollback(current: i32, target: i32, ms: &Vec<Migration>) -> (r: Vec<MigrationStep>)
    requires
        versions_above_min(ms@),
    ensures
        r@ == rollback_plan(current, target, ms@),
{
    let mut out: Vec<MigrationStep> = Vec::new();
    if current <= target {
        return out;
    }
    if target == 0 && current == 1 {
        out.push(MigrationStep { sql: None, version_after: 0 });
        assert(out@ =~= seq![MigrationStep { sql: None, version_after: 0 }]);
        return out;
    }
    let mut i: usize = ms.len();
    assert(ms@.subrange(0, i as int) =~= ms@);
    while i > 0
        invariant
            versions_above_min(ms@),
            i <= ms@.len(),
            out@ + down_steps(ms@.subrange(0, i as int), target, current) == down_steps(ms@, target, current),
        decreases i,
    {
        let m = ms[i - 1];
        let ghost pre = ms@.subrange(0, i as int);
        assert(pre.drop_last() =~= ms@.subrange(0, i - 1));
        assert(pre.last() == m);
        let ghost old_out = out@;
        if target < m.version && m.version <= current {
            out.push(m.rollback_step());
            assert(out@ =~= old_out + seq![down_step(m)]);
        } else {
            assert(out@ =~= old_out + Seq::<MigrationStep>::empty());
        }
        i -= 1;
        assert(out@ + down_steps(ms@.subrange(0, i as int), target, current) =~= down_steps(ms@, target, current));
    }
    assert(ms@.subrange(0, 0) =~= Seq::<Migration>::empty());
    assert(out@ =~= out@ + Seq::<MigrationStep>::empty());
    out
}

/// Applying twice is a no-op the second time: once the plan for version
/// `current` has run, the plan for the version it leaves is empty, so the
/// version stays where it is.
pub proof fn lemma_apply_idempotent(current: i32, ms: Seq<Migration>)
    ensures
        apply_plan(version_after(current, apply_plan(current, ms)), ms).len() == 0,
{
    let steps = apply_plan(current, ms);
    reveal(Seq::filter);
    if ms.len() == 0 {
        let v = version_after(current, steps);
        assert(ms.filter(|m: Migration| m.version > v) =~= Seq::<Migration>::empty());
    } else if current < latest_version(ms) {
        let p = |m: Migration| m.version > current;
        let f = ms.filter(p);
        assert(p(ms.last()));
        assert(f == ms.drop_last().filter(p).push(ms.last()));
        assert(f.last() == ms.last());
        assert(steps.last() == up_step(f.last()));
        assert(version_after(current, steps) == latest_version(ms));
    }
}

} // verus!
