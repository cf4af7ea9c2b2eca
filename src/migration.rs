use vstd::prelude::*;

use crate::schema::{change_table, change_views, changes_outcome, ChangeView, Schema, SchemaChange, SchemaError, SchemaView};

verus! {

/// Direction of a migration. Migrations only ever run forward.
#[derive(Clone, Copy, Debug, PartialEq, Eq, Structural)]
pub enum MigrationKind {
    Up,
}

/// One versioned, forward-only unit of schema change.
#[derive(Debug)]
pub struct Migration {
    pub version: u64,
    pub description: String,
    pub kind: MigrationKind,
    pub changes: Vec<SchemaChange>,
}

pub struct MigrationView {
    pub version: u64,
    pub description: Seq<char>,
    pub changes: Seq<ChangeView>,
}

impl View for Migration {
    type V = MigrationView;

    open spec fn view(&self) -> MigrationView {
        MigrationView {
            version: self.version,
            description: self.description@,
            changes: change_views(self.changes@),
        }
    }
}

pub open spec fn migration_views(ms: Seq<Migration>) -> Seq<MigrationView> {
    ms.map_values(|m: Migration| m@)
}

/// Entry `p` has a positive version, greater than the one declared before it.
pub open spec fn entry_in_order(ms: Seq<MigrationView>, p: int) -> bool {
    &&& ms[p].version > 0
    &&& (p == 0 || ms[p - 1].version < ms[p].version)
}

/// Every version is positive and versions strictly increase in declaration order.
pub open spec fn registry_valid(ms: Seq<MigrationView>) -> bool {
    &&& forall|i: int| 0 <= i < ms.len() ==> (#[trigger] ms[i]).version > 0
    &&& forall|i: int, j: int| 0 <= i < j < ms.len() ==> ms[i].version < ms[j].version
}

/// Why a list of migrations cannot form a registry.
#[derive(Clone, Copy, Debug, PartialEq, Eq, Structural)]
pub enum RegistryError {
    /// The entry at `position` has version 0.
    ZeroVersion { position: usize },
    /// The entry at `position` does not exceed the version declared before it.
    OutOfOrder { position: usize },
}

/// The ordered catalog of migrations; order of declaration is order of
/// application.
pub struct Registry {
    migrations: Vec<Migration>,
}

impl View for Registry {
    type V = Seq<MigrationView>;

    closed spec fn view(&self) -> Seq<MigrationView> {
        migration_views(self.migrations@)
    }
}

impl Registry {
    #[verifier::type_invariant]
    spec fn inv(&self) -> bool {
        registry_valid(migration_views(self.migrations@))
    }

    /// Builds a registry, refusing the first entry whose version is zero or
    /// not greater than the previous one.
    pub fn new(migrations: Vec<Migration>) -> (r: Result<Registry, RegistryError>)
        ensures
            match r {
                Ok(reg) => registry_valid(migration_views(migrations@)) && reg@ == migration_views(
                    migrations@,
                ),
                Err(RegistryError::ZeroVersion { position }) => {
                    &&& position < migrations.len()
                    &&& migrations@[position as int].version == 0
                    &&& forall|q: int|
                        0 <= q < position ==> entry_in_order(migration_views(migrations@), q)
                },
                Err(RegistryError::OutOfOrder { position }) => {
                    &&& 0 < position < migrations.len()
                    &&& migrations@[position as int].version > 0
                    &&& migrations@[position - 1].version >= migrations@[position as int].version
                    &&& forall|q: int|
                        0 <= q < position ==> entry_in_order(migration_views(migrations@), q)
                },
            },
    {
        let ghost mv = migration_views(migrations@);
        let mut p: usize = 0;
        while p < migrations.len()
            invariant
                p <= migrations.len(),
                mv == migration_views(migrations@),
                forall|q: int| 0 <= q < p ==> entry_in_order(mv, q),
                registry_valid(mv.subrange(0, p as int)),
            decreases migrations.len() - p,
        {
            if migrations[p].version == 0 {
                return Err(RegistryError::ZeroVersion { position: p });
            }
            if p > 0 && migrations[p - 1].version >= migrations[p].version {
                return Err(RegistryError::OutOfOrder { position: p });
            }
            proof {
                let sub = mv.subrange(0, p as int + 1);
                assert forall|i: int, j: int| 0 <= i < j < sub.len() implies sub[i].version
                    < sub[j].version by {
                    if j < p {
                        assert(mv.subrange(0, p as int)[i] == sub[i]);
                        assert(mv.subrange(0, p as int)[j] == sub[j]);
                    } else if i < p - 1 {
                        assert(mv.subrange(0, p as int)[i] == sub[i]);
                        assert(mv.subrange(0, p as int)[p - 1] == sub[p - 1]);
                    }
                }
                assert forall|i: int| 0 <= i < sub.len() implies (#[trigger] sub[i]).version
                    > 0 by {
                    assert(entry_in_order(mv, i));
                }
            }
            p = p + 1;
        }
        assert(mv.subrange(0, p as int) =~= mv);
        Ok(Registry { migrations })
    }

    /// The migrations in order of application.
    pub fn migrations(&self) -> (r: &Vec<Migration>)
        ensures
            migration_views(r@) == self@,
            registry_valid(self@),
    {
        proof {
            use_type_invariant(self);
        }
        &self.migrations
    }

    /// The highest version the registry knows of; 0 when it is empty.
    pub fn latest_version(&self) -> (r: u64)
        ensures
            r == latest_version_of(self@),
    {
        let n = self.migrations.len();
        if n == 0 {
            0
        } else {
            self.migrations[n - 1].version
        }
    }
}

pub open spec fn latest_version_of(ms: Seq<MigrationView>) -> u64 {
    if ms.len() == 0 {
        0
    } else {
        ms.last().version
    }
}

/// A migration could not be applied; the store stays at the version before
/// it. `step` is the position of the refused change within the migration and
/// `table` the table that change is about.
#[derive(Debug, PartialEq, Eq)]
pub struct MigrationFailure {
    pub version: u64,
    pub step: usize,
    pub table: String,
    pub cause: SchemaError,
}

pub struct FailureView {
    pub version: u64,
    pub step: int,
    pub table: Seq<char>,
    pub cause: SchemaError,
}

impl View for MigrationFailure {
    type V = FailureView;

    open spec fn view(&self) -> FailureView {
        FailureView {
            version: self.version,
            step: self.step as int,
            table: self.table@,
            cause: self.cause,
        }
    }
}

/// Where a run of the migrations ends: the applied version, the schema, the
/// versions applied in order, and the failure that stopped it, if any.
pub struct RunOutcome {
    pub version: u64,
    pub schema: SchemaView,
    pub applied: Seq<u64>,
    pub failure: Option<FailureView>,
}

/// Runs `ms` in order against a store at `version` with schema `schema`:
/// entries at or below the applied version are skipped, each other entry is
/// applied as one unit and its version recorded, and the first entry that
/// fails stops the run with the store as it was before that entry.
pub open spec fn run_outcome(version: u64, schema: SchemaView, ms: Seq<MigrationView>) -> RunOutcome
    decreases ms.len(),
{
    if ms.len() == 0 {
        RunOutcome { version, schema, applied: seq![], failure: None }
    } else if ms[0].version <= version {
        run_outcome(version, schema, ms.drop_first())
    } else {
        match changes_outcome(schema, ms[0].changes) {
            Ok(s1) => {
                let r = run_outcome(ms[0].version, s1, ms.drop_first());
                RunOutcome {
                    version: r.version,
                    schema: r.schema,
                    applied: seq![ms[0].version] + r.applied,
                    failure: r.failure,
                }
            },
            Err((k, e)) => RunOutcome {
                version,
                schema,
                applied: seq![],
                failure: Some(
                    FailureView {
                        version: ms[0].version,
                        step: k,
                        table: change_table(ms[0].changes[k]),
                        cause: e,
                    },
                ),
            },
        }
    }
}

pub open spec fn with_prefix(a: Seq<u64>, r: RunOutcome) -> RunOutcome {
    RunOutcome { version: r.version, schema: r.schema, applied: a + r.applied, failure: r.failure }
}

/// A store's schema together with the highest migration version applied to it.
#[derive(Debug)]
pub struct Store {
    pub version: u64,
    pub schema: Schema,
}

impl Store {
    /// A fresh store: no tables, applied version 0.
    pub fn new() -> (r: Store)
        ensures
            r.version == 0,
            r.schema@ == SchemaView::empty(),
            r.schema@.wf(),
    {
        Store { version: 0, schema: Schema::new() }
    }

    /// Applies, in registry order, every migration whose version exceeds the
    /// applied version, each as one unit that either takes effect whole and
    /// records its version, or fails and leaves the store as it was. Returns
    /// the versions applied, or the first failure.
    pub fn migrate(&mut self, registry: &Registry) -> (r: Result<Vec<u64>, MigrationFailure>)
        requires
            old(self).schema@.wf(),
        ensures
            final(self).schema@.wf(),
            ({
                let o = run_outcome(old(self).version, old(self).schema@, registry@);
                &&& final(self).version == o.version
                &&& final(self).schema@ == o.schema
                &&& match r {
                    Ok(applied) => o.failure is None && applied@ == o.applied,
                    Err(f) => o.failure == Some(f@),
                }
            }),
    {
        let ms = registry.migrations();
        let ghost mv = registry@;
        let ghost total = run_outcome(self.version, self.schema@, mv);
        let mut applied: Vec<u64> = Vec::new();
        let mut i: usize = 0;
        assert(mv.skip(0) =~= mv);
        assert(applied@ + total.applied =~= total.applied);
        while i < ms.len()
            invariant
                i <= ms.len(),
                mv == migration_views(ms@),
                mv == registry@,
                total == run_outcome(old(self).version, old(self).schema@, registry@),
                self.schema@.wf(),
                total == with_prefix(applied@, run_outcome(self.version, self.schema@, mv.skip(i as int))),
            decreases ms.len() - i,
        {
            let m = &ms[i];
            let ghost rest = mv.skip(i as int);
            assert(rest[0] == m@);
            assert(rest.drop_first() =~= mv.skip(i as int + 1));
            if m.version > self.version {
                match self.schema.with_changes(&m.changes) {
                    Ok(next) => {
                        let ghost tail = run_outcome(m.version, next@, mv.skip(i as int + 1));
                        assert(applied@ + (seq![m.version] + tail.applied) =~= applied@.push(m.version) + tail.applied);
                        self.schema = next;
                        self.version = m.version;
                        applied.push(m.version);
                    },
                    Err((step, cause)) => {
                        assert(applied@ + Seq::<u64>::empty() =~= applied@);
                        assert(m@.changes[step as int] == m.changes@[step as int]@);
                        let table = m.changes[step].table_name().clone();
                        return Err(MigrationFailure { version: m.version, step, table, cause });
                    },
                }
            }
            i = i + 1;
        }
        assert(applied@ + Seq::<u64>::empty() =~= applied@);
        Ok(applied)
    }
}

/// Versions of `ms` above `v`, in registry order: what a run from `v` should apply.
pub open spec fn pending_versions(ms: Seq<MigrationView>, v: u64) -> Seq<u64>
    decreases ms.len(),
{
    if ms.len() == 0 {
        seq![]
    } else if ms[0].version > v {
        seq![ms[0].version] + pending_versions(ms.drop_first(), v)
    } else {
        pending_versions(ms.drop_first(), v)
    }
}

proof fn lemma_valid_drop_first(ms: Seq<MigrationView>)
    requires
        registry_valid(ms),
        ms.len() > 0,
    ensures
        registry_valid(ms.drop_first()),
        forall|j: int| 0 <= j < ms.drop_first().len() ==> ms[0].version < (#[trigger] ms.drop_first()[j]).version,
{
    let rest = ms.drop_first();
    assert forall|j: int| 0 <= j < rest.len() implies ms[0].version < (#[trigger] rest[j]).version by {
        assert(rest[j] == ms[j + 1]);
    }
    assert forall|i: int, j: int| 0 <= i < j < rest.len() implies rest[i].version < rest[j].version by {
        assert(rest[i] == ms[i + 1]);
        assert(rest[j] == ms[j + 1]);
    }
    assert forall|i: int| 0 <= i < rest.len() implies (#[trigger] rest[i]).version > 0 by {
        assert(rest[i] == ms[i + 1]);
    }
}

proof fn lemma_success_covers(version: u64, schema: SchemaView, ms: Seq<MigrationView>)
    requires
        run_outcome(version, schema, ms).failure is None,
    ensures
        run_outcome(version, schema, ms).version >= version,
        forall|j: int| 0 <= j < ms.len() ==> (#[trigger] ms[j]).version <= run_outcome(version, schema, ms).version,
    decreases ms.len(),
{
    if ms.len() > 0 {
        let rest = ms.drop_first();
        assert forall|j: int| 0 < j < ms.len() implies ms[j] == rest[j - 1] by {}
        if ms[0].version <= version {
            lemma_success_covers(version, schema, rest);
            assert forall|j: int| 0 <= j < ms.len() implies (#[trigger] ms[j]).version <= run_outcome(version, schema, ms).version by {
                if j > 0 {
                    assert(rest[j - 1].version <= run_outcome(version, schema, rest).version);
                }
            }
        } else {
            let s1 = changes_outcome(schema, ms[0].changes)->Ok_0;
            lemma_success_covers(ms[0].version, s1, rest);
            assert forall|j: int| 0 <= j < ms.len() implies (#[trigger] ms[j]).version <= run_outcome(version, schema, ms).version by {
                if j > 0 {
                    assert(rest[j - 1].version <= run_outcome(ms[0].version, s1, rest).version);
                }
            }
        }
    }
}

proof fn lemma_nothing_pending(version: u64, schema: SchemaView, ms: Seq<MigrationView>)
    requires
        forall|j: int| 0 <= j < ms.len() ==> (#[trigger] ms[j]).version <= version,
    ensures
        run_outcome(version, schema, ms) == (RunOutcome { version, schema, applied: seq![], failure: None }),
    decreases ms.len(),
{
    if ms.len() > 0 {
        let rest = ms.drop_first();
        assert forall|j: int| 0 <= j < rest.len() implies (#[trigger] rest[j]).version <= version by {
            assert(rest[j] == ms[j + 1]);
        }
        lemma_nothing_pending(version, schema, rest);
    }
}

/// Running the same migrations again on the store that a successful run left
/// behind applies nothing and changes neither the version nor the schema.
pub proof fn lemma_rerun_is_noop(version: u64, schema: SchemaView, ms: Seq<MigrationView>)
    requires
        run_outcome(version, schema, ms).failure is None,
    ensures
        ({
            let o = run_outcome(version, schema, ms);
            run_outcome(o.version, o.schema, ms) == (RunOutcome {
                version: o.version,
                schema: o.schema,
                applied: seq![],
                failure: None,
            })
        }),
{
    let o = run_outcome(version, schema, ms);
    lemma_success_covers(version, schema, ms);
    lemma_nothing_pending(o.version, o.schema, ms);
}

proof fn lemma_valid_run_version(version: u64, schema: SchemaView, ms: Seq<MigrationView>)
    requires
        registry_valid(ms),
        run_outcome(version, schema, ms).failure is None,
    ensures
        run_outcome(version, schema, ms).version == if latest_version_of(ms) > version {
            latest_version_of(ms)
        } else {
            version
        },
    decreases ms.len(),
{
    if ms.len() > 0 {
        let rest = ms.drop_first();
        lemma_valid_drop_first(ms);
        if rest.len() > 0 {
            assert(rest.last() == ms.last());
        }
        if ms[0].version <= version {
            lemma_valid_run_version(version, schema, rest);
        } else {
            let s1 = changes_outcome(schema, ms[0].changes)->Ok_0;
            lemma_valid_run_version(ms[0].version, s1, rest);
            if rest.len() > 0 {
                assert(ms[0].version < rest[rest.len() - 1].version);
            }
        }
    }
}

/// On a fresh store, a registry whose versions strictly increase runs to its
/// last version; running it a second time is a no-op.
pub proof fn lemma_fresh_run_reaches_latest(ms: Seq<MigrationView>)
    requires
        registry_valid(ms),
        run_outcome(0, SchemaView::empty(), ms).failure is None,
    ensures
        ({
            let o = run_outcome(0, SchemaView::empty(), ms);
            &&& o.version == latest_version_of(ms)
            &&& run_outcome(o.version, o.schema, ms) == (RunOutcome {
                version: o.version,
                schema: o.schema,
                applied: seq![],
                failure: None,
            })
        }),
{
    lemma_valid_run_version(0, SchemaView::empty(), ms);
    lemma_rerun_is_noop(0, SchemaView::empty(), ms);
}

proof fn lemma_pending_all(ms: Seq<MigrationView>, v: u64)
    requires
        forall|j: int| 0 <= j < ms.len() ==> (#[trigger] ms[j]).version > v,
    ensures
        pending_versions(ms, v) == ms.map_values(|m: MigrationView| m.version),
    decreases ms.len(),
{
    if ms.len() > 0 {
        let rest = ms.drop_first();
        assert forall|j: int| 0 <= j < rest.len() implies (#[trigger] rest[j]).version > v by {
            assert(rest[j] == ms[j + 1]);
        }
        lemma_pending_all(rest, v);
        assert(ms.map_values(|m: MigrationView| m.version) =~= seq![ms[0].version] + rest.map_values(
            |m: MigrationView| m.version,
        ));
    }
}

proof fn lemma_pending_bounds(ms: Seq<MigrationView>, v: u64, w: u64)
    ensures
        forall|k: int| 0 <= k < pending_versions(ms, v).len() ==> (#[trigger] pending_versions(ms, v)[k]) > v,
        (forall|j: int| 0 <= j < ms.len() ==> (#[trigger] ms[j]).version > w) ==> forall|k: int|
            0 <= k < pending_versions(ms, v).len() ==> (#[trigger] pending_versions(ms, v)[k]) > w,
    decreases ms.len(),
{
    if ms.len() > 0 {
        let rest = ms.drop_first();
        lemma_pending_bounds(rest, v, w);
        if forall|j: int| 0 <= j < ms.len() ==> (#[trigger] ms[j]).version > w {
            assert forall|j: int| 0 <= j < rest.len() implies (#[trigger] rest[j]).version > w by {
                assert(rest[j] == ms[j + 1]);
            }
        }
        if ms[0].version > v {
            let p = pending_versions(ms, v);
            assert forall|k: int| 0 < k < p.len() implies p[k] == pending_versions(rest, v)[k - 1] by {}
        }
    }
}

proof fn lemma_pending_increasing(ms: Seq<MigrationView>, v: u64)
    requires
        registry_valid(ms),
    ensures
        forall|a: int, b: int|
            0 <= a < b < pending_versions(ms, v).len() ==> pending_versions(ms, v)[a] < pending_versions(ms, v)[b],
    decreases ms.len(),
{
    if ms.len() > 0 {
        let rest = ms.drop_first();
        lemma_valid_drop_first(ms);
        lemma_pending_increasing(rest, v);
        if ms[0].version > v {
            lemma_pending_bounds(rest, v, ms[0].version);
            let p = pending_versions(ms, v);
            let q = pending_versions(rest, v);
            assert forall|a: int, b: int| 0 <= a < b < p.len() implies p[a] < p[b] by {
                assert(p[b] == q[b - 1]);
                if a > 0 {
                    assert(p[a] == q[a - 1]);
                }
            }
        }
    }
}

/// A run from version `version` with a registry whose versions strictly
/// increase applies exactly the registry's versions above `version`, in
/// ascending order, and no others.
pub proof fn lemma_applies_exactly_pending(version: u64, schema: SchemaView, ms: Seq<MigrationView>)
    requires
        registry_valid(ms),
        run_outcome(version, schema, ms).failure is None,
    ensures
        run_outcome(version, schema, ms).applied == pending_versions(ms, version),
        forall|k: int|
            0 <= k < pending_versions(ms, version).len() ==> (#[trigger] pending_versions(ms, version)[k]) > version,
        forall|a: int, b: int|
            0 <= a < b < pending_versions(ms, version).len() ==> pending_versions(ms, version)[a]
                < pending_versions(ms, version)[b],
    decreases ms.len(),
{
    lemma_pending_bounds(ms, version, version);
    lemma_pending_increasing(ms, version);
    if ms.len() > 0 {
        let rest = ms.drop_first();
        lemma_valid_drop_first(ms);
        if ms[0].version <= version {
            lemma_applies_exactly_pending(version, schema, rest);
        } else {
            let s1 = changes_outcome(schema, ms[0].changes)->Ok_0;
            lemma_applies_exactly_pending(ms[0].version, s1, rest);
            lemma_pending_all(rest, ms[0].version);
            assert forall|j: int| 0 <= j < rest.len() implies (#[trigger] rest[j]).version > version by {}
            lemma_pending_all(rest, version);
        }
    }
}

} // verus!
