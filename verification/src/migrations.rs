//! The schema-migration bootstrap for the relational store, and a model of
//! the migration runner's version-tracking discipline: each migration is
//! applied at most once, and an already-bootstrapped store is left alone.
use vstd::prelude::*;

verus! {

/// How a migration script is applied; only forward ("up") scripts exist
/// here.
#[derive(Clone, Copy, PartialEq, Eq, Structural, Debug)]
pub enum MigrationKind {
    Up,
}

/// One versioned, one-time schema-upgrade script.
pub struct Migration {
    pub version: u64,
    pub description: String,
    pub script: String,
    pub kind: MigrationKind,
}

/// The address of the relational store the migrations apply to.
pub fn database_address() -> (r: String)
    ensures
        r@ == "sqlite:sinogi.db"@,
{
    "sqlite:sinogi.db".to_owned()
}

/// The ordered migration list handed to the runner at startup: exactly one
/// migration, version 1, the initial "create tables" script. The script
/// text itself is owned by the storage collaborator and passes through
/// untouched.
pub fn schema_migrations(script: String) -> (v: Vec<Migration>)
    ensures
        v@.len() == 1,
        v@[0].version == 1,
        v@[0].description@ == "Create tables"@,
        v@[0].script == script,
        v@[0].kind == MigrationKind::Up,
{
    let mut v: Vec<Migration> = Vec::new();
    v.push(
        Migration {
            version: 1,
            description: "Create tables".to_owned(),
            script,
            kind: MigrationKind::Up,
        },
    );
    v
}

/// The versions of a migration list, in list order.
pub open spec fn versions_of(ms: Seq<Migration>) -> Seq<u64> {
    ms.map_values(|m: Migration| m.version)
}

/// One run of the migration runner over `vs`, starting from the durable
/// version log `applied`: each version not yet in the log is applied and
/// recorded, in order; every other version is skipped. Yields the log after
/// the run and the versions applied during it.
pub open spec fn spec_run_log(applied: Seq<u64>, vs: Seq<u64>) -> (Seq<u64>, Seq<u64>)
    decreases vs.len(),
{
    if vs.len() == 0 {
        (applied, Seq::empty())
    } else {
        let prev = spec_run_log(applied, vs.drop_last());
        if prev.0.contains(vs.last()) {
            prev
        } else {
            (prev.0.push(vs.last()), prev.1.push(vs.last()))
        }
    }
}

/// After a run, every version of the list is in the log.
pub proof fn lemma_run_log_covers(applied: Seq<u64>, vs: Seq<u64>)
    ensures
        forall|i: int| 0 <= i < vs.len() ==> spec_run_log(applied, vs).0.contains(vs[i]),
    decreases vs.len(),
{
    if vs.len() == 0 {
    } else {
        let prev = spec_run_log(applied, vs.drop_last());
        let cur = spec_run_log(applied, vs);
        lemma_run_log_covers(applied, vs.drop_last());
        assert forall|i: int| 0 <= i < vs.len() implies cur.0.contains(vs[i]) by {
            if i < vs.len() - 1 {
                assert(vs.drop_last()[i] == vs[i]);
                assert(prev.0.contains(vs[i]));
                let w: int = choose|k: int| 0 <= k < prev.0.len() && prev.0[k] == vs[i];
                assert(cur.0[w] == vs[i]);
            } else {
                if prev.0.contains(vs.last()) {
                    let w: int = choose|k: int| 0 <= k < prev.0.len() && prev.0[k] == vs.last();
                    assert(cur.0[w] == vs[i]);
                } else {
                    assert(cur.0[prev.0.len() as int] == vs[i]);
                }
            }
        }
    }
}

/// A run over versions the log already holds applies nothing and leaves the
/// log unchanged.
pub proof fn lemma_run_log_noop(applied: Seq<u64>, vs: Seq<u64>)
    requires
        forall|i: int| 0 <= i < vs.len() ==> applied.contains(vs[i]),
    ensures
        spec_run_log(applied, vs).0 == applied,
        spec_run_log(applied, vs).1 == Seq::<u64>::empty(),
    decreases vs.len(),
{
    if vs.len() == 0 {
    } else {
        assert forall|i: int| 0 <= i < vs.drop_last().len() implies applied.contains(
            vs.drop_last()[i],
        ) by {
            assert(vs.drop_last()[i] == vs[i]);
        }
        lemma_run_log_noop(applied, vs.drop_last());
        assert(applied.contains(vs.last())) by {
            assert(applied.contains(vs[vs.len() - 1]));
        }
    }
}

/// Law: migration application is idempotent. Running the same migration
/// list a second time against the log the first run left applies no script
/// at all — in particular, the bootstrap script never runs twice, and no
/// duplicate-table error can reach the caller — and leaves the log exactly
/// as the first run left it.
pub proof fn lemma_apply_idempotent(applied: Seq<u64>, vs: Seq<u64>)
    ensures
        spec_run_log(spec_run_log(applied, vs).0, vs).0 == spec_run_log(applied, vs).0,
        spec_run_log(spec_run_log(applied, vs).0, vs).1 == Seq::<u64>::empty(),
{
    lemma_run_log_covers(applied, vs);
    lemma_run_log_noop(spec_run_log(applied, vs).0, vs);
}

/// Whether `v` holds `x`.
fn contains_version(v: &Vec<u64>, x: u64) -> (r: bool)
    ensures
        r == v@.contains(x),
{
    let mut k: usize = 0;
    while k < v.len()
        invariant
            k <= v@.len(),
            forall|j: int| 0 <= j < k ==> v@[j] != x,
        decreases v@.len() - k,
    {
        if v[k] == x {
            proof {
                assert(v@.contains(x)) by {
                    assert(v@[k as int] == x);
                }
            }
            return true;
        }
        k += 1;
    }
    false
}

/// A model of the migration runner's durable version log: the versions it
/// has applied, in application order.
pub struct MigrationStore {
    pub applied: Vec<u64>,
}

impl MigrationStore {
    /// A store no migration was ever applied to.
    pub fn new() -> (s: MigrationStore)
        ensures
            s.applied@ == Seq::<u64>::empty(),
    {
        MigrationStore { applied: Vec::new() }
    }

    /// One run of the migration runner: walks the migrations in order,
    /// skips every version already recorded, applies and records the rest.
    /// Returns the versions whose scripts were applied during this run, in
    /// order.
    pub fn apply(&mut self, migrations: &Vec<Migration>) -> (run: Vec<u64>)
        ensures
            final(self).applied@ == spec_run_log(old(self).applied@, versions_of(migrations@)).0,
            run@ == spec_run_log(old(self).applied@, versions_of(migrations@)).1,
    {
        let ghost a0 = self.applied@;
        let ghost vs = versions_of(migrations@);
        let mut run: Vec<u64> = Vec::new();
        let n: usize = migrations.len();
        let mut k: usize = 0;
        while k < n
            invariant
                n == migrations@.len(),
                k <= n,
                vs == versions_of(migrations@),
                self.applied@ == spec_run_log(a0, vs.take(k as int)).0,
                run@ == spec_run_log(a0, vs.take(k as int)).1,
            decreases n - k,
        {
            let ver: u64 = migrations[k].version;
            proof {
                assert(vs[k as int] == ver);
                assert(vs.take(k as int + 1).drop_last() =~= vs.take(k as int));
                assert(vs.take(k as int + 1).last() == vs[k as int]);
            }
            if !contains_version(&self.applied, ver) {
                self.applied.push(ver);
                run.push(ver);
            }
            k += 1;
        }
        proof {
            assert(vs.take(n as int) =~= vs);
        }
        run
    }
}

} // verus!
