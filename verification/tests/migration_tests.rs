use fastclient::migrations::{migration_statements, migration_step, MigrationAction, MIGRATION_NAMES};

#[test]
fn applied_migrations_are_skipped() {
    assert!(matches!(migration_step(1, true), MigrationAction::Skip));
}

#[test]
fn pending_migration_runs_its_statements_in_order() {
    match migration_step(1, false) {
        MigrationAction::Apply { name, statements } => {
            assert_eq!(name, "002_create_customers");
            assert_eq!(statements.len(), 3);
            assert!(statements[0].starts_with("CREATE TABLE IF NOT EXISTS customers"));
            assert_eq!(statements[2], "CREATE INDEX IF NOT EXISTS idx_customers_name ON customers(name)");
        }
        MigrationAction::Skip => panic!("not applied"),
    }
    assert_eq!(migration_statements(0).len(), 2);
    assert_eq!(migration_statements(2).len(), 2);
    assert_eq!(MIGRATION_NAMES, ["001_create_users", "002_create_customers", "003_create_customer_notes"]);
}
