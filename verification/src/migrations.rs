//! The database schema, as the ordered migrations that create it, and the
//! decision taken for each of them when the server starts.
use vstd::prelude::*;

verus! {

/// The table that records which migrations have been applied.
pub const SCHEMA_MIGRATIONS_SQL: &'static str = r#"CREATE TABLE IF NOT EXISTS schema_migrations (
            name TEXT PRIMARY KEY,
            applied_at TIMESTAMPTZ NOT NULL DEFAULT NOW()
        )"#;

/// Whether a migration has been applied (`$1` is its name).
pub const MIGRATION_APPLIED_SQL: &'static str = r#"SELECT EXISTS(SELECT 1 FROM schema_migrations WHERE name = $1)"#;

/// Records that a migration has been applied (`$1` is its name).
pub const RECORD_MIGRATION_SQL: &'static str = r#"INSERT INTO schema_migrations (name) VALUES ($1)"#;

/// The names of the migrations, in the order they are applied.
pub const MIGRATION_NAMES: [&'static str; 3] = [
    r#"001_create_users"#,
    r#"002_create_customers"#,
    r#"003_create_customer_notes"#,
];

/// The statements of the migrations, each with the position of its migration, in order.
pub const MIGRATION_STEPS: [(usize, &'static str); 7] = [
    (0, r#"CREATE TABLE IF NOT EXISTS users (
                id UUID PRIMARY KEY DEFAULT gen_random_uuid(),
                email TEXT NOT NULL UNIQUE,
                password_hash TEXT NOT NULL,
                name TEXT NOT NULL,
                created_at TIMESTAMPTZ NOT NULL DEFAULT NOW(),
                updated_at TIMESTAMPTZ NOT NULL DEFAULT NOW()
            )"#),
    (0, r#"CREATE INDEX IF NOT EXISTS idx_users_email ON users(email)"#),
    (1, r#"CREATE TABLE IF NOT EXISTS customers (
                id UUID PRIMARY KEY DEFAULT gen_random_uuid(),
                name TEXT NOT NULL,
                email TEXT,
                phone TEXT,
                website TEXT,
                city TEXT,
                state TEXT,
                industry TEXT,
                status TEXT NOT NULL DEFAULT 'new',
                created_at TIMESTAMPTZ NOT NULL DEFAULT NOW(),
                updated_at TIMESTAMPTZ NOT NULL DEFAULT NOW()
            )"#),
    (1, r#"CREATE INDEX IF NOT EXISTS idx_customers_status ON customers(status)"#),
    (1, r#"CREATE INDEX IF NOT EXISTS idx_customers_name ON customers(name)"#),
    (2, r#"CREATE TABLE IF NOT EXISTS customer_notes (
                id UUID PRIMARY KEY DEFAULT gen_random_uuid(),
                customer_id UUID NOT NULL REFERENCES customers(id) ON DELETE CASCADE,
                body TEXT NOT NULL,
                created_at TIMESTAMPTZ NOT NULL DEFAULT NOW()
            )"#),
    (2, r#"CREATE INDEX IF NOT EXISTS idx_customer_notes_customer_id ON customer_notes(customer_id)"#),
];

/// The statements among `steps` that belong to migration `m`, in order.
pub open spec fn statements_of(steps: Seq<(usize, &'static str)>, m: int) -> Seq<&'static str>
    decreases steps.len(),
{
    if steps.len() == 0 {
        Seq::empty()
    } else {
        let rest = statements_of(steps.drop_last(), m);
        if steps.last().0 == m {
            rest.push(steps.last().1)
        } else {
            rest
        }
    }
}

/// What is done for one migration when the server starts.
pub enum MigrationAction {
    /// It was applied before: nothing.
    Skip,
    /// Run these statements in order, then record `name` as applied.
    Apply { name: &'static str, statements: Vec<&'static str> },
}

/// The statements of migration `m`, in order.
pub fn migration_statements(m: usize) -> (r: Vec<&'static str>)
    ensures
        r@ == statements_of(MIGRATION_STEPS@, m as int),
{
    let mut r: Vec<&'static str> = Vec::new();
    let mut i: usize = 0;
    while i < 7
        invariant
            i <= 7,
            r@ == statements_of(MIGRATION_STEPS@.take(i as int), m as int),
        decreases 7 - i,
    {
        assert(MIGRATION_STEPS@.take(i + 1).drop_last() =~= MIGRATION_STEPS@.take(i as int));
        let (k, sql) = MIGRATION_STEPS[i];
        if k == m {
            r.push(sql);
        }
        i += 1;
    }
    assert(MIGRATION_STEPS@.take(7) =~= MIGRATION_STEPS@);
    r
}

/// What to do for migration `m` (a position in `MIGRATION_NAMES`), given
/// whether it was applied before.
pub fn migration_step(m: usize, applied: bool) -> (r: MigrationAction)
    requires
        m < 3,
    ensures
        applied ==> r is Skip,
        !applied ==> (r matches MigrationAction::Apply { name, statements } && name == MIGRATION_NAMES@[m as int]
            && statements@ == statements_of(MIGRATION_STEPS@, m as int)),
{
    if applied {
        MigrationAction::Skip
    } else {
        MigrationAction::Apply { name: MIGRATION_NAMES[m], statements: migration_statements(m) }
    }
}

/// The names recorded as applied once the first `k` migrations have been run in
/// order on a database that had `recorded` (each step either finds its name
/// already there or applies the migration and records its name).
pub open spec fn recorded_after(recorded: Set<Seq<char>>, k: int) -> Set<Seq<char>> {
    recorded.union(Set::new(|n: Seq<char>| exists|j: int| 0 <= j < k && n == #[trigger] MIGRATION_NAMES@[j]@))
}

/// Whether migration `m` is applied when the names in `recorded` are the ones
/// recorded: exactly when its name is not among them (`migration_step` with
/// `applied` false).
pub open spec fn migration_due(m: int, recorded: Set<Seq<char>>) -> bool {
    !recorded.contains(MIGRATION_NAMES@[m]@)
}

/// Running the migrations a second time does nothing: after a complete run every
/// migration's name is recorded, so each one is skipped, and the recorded names
/// stay as they are.
pub proof fn lemma_rerun_applies_nothing(recorded: Set<Seq<char>>)
    ensures
        forall|m: int| 0 <= m < 3 ==> !#[trigger] migration_due(m, recorded_after(recorded, 3)),
        recorded_after(recorded_after(recorded, 3), 3) == recorded_after(recorded, 3),
{
    let after = recorded_after(recorded, 3);
    assert forall|m: int| 0 <= m < 3 implies !#[trigger] migration_due(m, after) by {
        assert(0 <= m < 3 && MIGRATION_NAMES@[m]@ == MIGRATION_NAMES@[m]@);
    }
    assert(recorded_after(after, 3) =~= after);
}

} // verus!
