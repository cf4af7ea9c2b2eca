use vinco_store::catalog::app_registry;
use vinco_store::migration::{Migration, MigrationFailure, MigrationKind, Registry, RegistryError, Store};
use vinco_store::schema::{Column, ColumnType, DefaultValue, Index, SchemaChange, SchemaError, Table};

fn col(name: &str) -> Column {
    Column {
        name: name.to_string(),
        ty: ColumnType::Text,
        not_null: false,
        primary_key: false,
        auto_increment: false,
        default: None,
        references: None,
    }
}

fn create(table: &str, cols: &[&str]) -> SchemaChange {
    SchemaChange::CreateTable(Table {
        name: table.to_string(),
        columns: cols.iter().map(|c| col(c)).collect(),
    })
}

fn add(table: &str, column: Column) -> SchemaChange {
    SchemaChange::AddColumn { table: table.to_string(), column }
}

fn mig(version: u64, changes: Vec<SchemaChange>) -> Migration {
    Migration { version, description: format!("step {}", version), kind: MigrationKind::Up, changes }
}

fn sample(upto: usize) -> Registry {
    let all = vec![
        mig(1, vec![create("a", &["id"])]),
        mig(2, vec![create("b", &["id"])]),
        mig(3, vec![add("a", col("x"))]),
        mig(4, vec![add("b", col("y"))]),
    ];
    Registry::new(all.into_iter().take(upto).collect()).unwrap()
}

#[test]
fn registry_accepts_increasing_versions() {
    let r = sample(4);
    assert_eq!(r.latest_version(), 4);
    assert_eq!(r.migrations().len(), 4);
}

#[test]
fn registry_rejects_zero_version() {
    let r = Registry::new(vec![mig(0, vec![])]);
    assert_eq!(r.err(), Some(RegistryError::ZeroVersion { position: 0 }));
}

#[test]
fn registry_rejects_versions_out_of_order() {
    let r = Registry::new(vec![mig(1, vec![]), mig(3, vec![]), mig(3, vec![])]);
    assert_eq!(r.err(), Some(RegistryError::OutOfOrder { position: 2 }));
    let r = Registry::new(vec![mig(2, vec![]), mig(1, vec![])]);
    assert_eq!(r.err(), Some(RegistryError::OutOfOrder { position: 1 }));
}

#[test]
fn empty_registry_leaves_fresh_store_at_zero() {
    let r = Registry::new(vec![]).unwrap();
    assert_eq!(r.latest_version(), 0);
    let mut s = Store::new();
    assert_eq!(s.migrate(&r).unwrap(), Vec::<u64>::new());
    assert_eq!(s.version, 0);
}

#[test]
fn fresh_run_reaches_latest_and_rerun_is_noop() {
    let r = sample(4);
    let mut s = Store::new();
    assert_eq!(s.migrate(&r).unwrap(), vec![1, 2, 3, 4]);
    assert_eq!(s.version, 4);
    let tables_before = s.schema.tables.len();
    let cols_before: Vec<usize> = s.schema.tables.iter().map(|t| t.columns.len()).collect();
    assert_eq!(s.migrate(&r).unwrap(), Vec::<u64>::new());
    assert_eq!(s.version, 4);
    assert_eq!(s.schema.tables.len(), tables_before);
    let cols_after: Vec<usize> = s.schema.tables.iter().map(|t| t.columns.len()).collect();
    assert_eq!(cols_after, cols_before);
}

#[test]
fn partial_store_applies_only_pending_in_order() {
    let mut s = Store::new();
    assert_eq!(s.migrate(&sample(2)).unwrap(), vec![1, 2]);
    assert_eq!(s.version, 2);
    assert_eq!(s.migrate(&sample(4)).unwrap(), vec![3, 4]);
    assert_eq!(s.version, 4);
    let a = s.schema.find_column(&"a".to_string(), &"x".to_string());
    assert!(a.is_some());
}

#[test]
fn failing_migration_stops_at_last_good_version() {
    let r = Registry::new(vec![
        mig(1, vec![create("a", &["id"])]),
        mig(2, vec![add("a", col("x")), add("missing", col("y"))]),
        mig(3, vec![create("c", &["id"])]),
    ])
    .unwrap();
    let mut s = Store::new();
    let e = s.migrate(&r).unwrap_err();
    assert_eq!(
        e,
        MigrationFailure {
            version: 2,
            step: 1,
            table: "missing".to_string(),
            cause: SchemaError::MissingTable
        }
    );
    assert_eq!(s.version, 1);
    // the first change of the failed unit did not take effect
    assert!(s.schema.find_column(&"a".to_string(), &"x".to_string()).is_none());
    assert_eq!(s.schema.tables.len(), 1);
}

fn failure_of(change: SchemaChange) -> MigrationFailure {
    let r = Registry::new(vec![mig(1, vec![create("a", &["id"])]), mig(2, vec![change])]).unwrap();
    let mut s = Store::new();
    let e = s.migrate(&r).unwrap_err();
    assert_eq!(s.version, 1);
    e
}

#[test]
fn adding_existing_column_fails() {
    let e = failure_of(add("a", col("id")));
    assert_eq!(e.cause, SchemaError::DuplicateColumn);
    assert_eq!(e.version, 2);
    assert_eq!(e.step, 0);
    assert_eq!(e.table, "a");
}

#[test]
fn adding_not_null_column_without_default_fails() {
    let mut c = col("n");
    c.not_null = true;
    assert_eq!(failure_of(add("a", c)).cause, SchemaError::NotNullWithoutDefault);
}

#[test]
fn adding_not_null_column_with_default_succeeds() {
    let mut c = col("n");
    c.not_null = true;
    c.default = Some(DefaultValue::Text("N/A".to_string()));
    let r = Registry::new(vec![mig(1, vec![create("a", &["id"])]), mig(2, vec![add("a", c)])]).unwrap();
    let mut s = Store::new();
    assert_eq!(s.migrate(&r).unwrap(), vec![1, 2]);
}

#[test]
fn adding_primary_key_column_fails() {
    let mut c = col("k");
    c.primary_key = true;
    assert_eq!(failure_of(add("a", c)).cause, SchemaError::PrimaryKeyColumn);
}

#[test]
fn adding_column_with_timestamp_default_fails() {
    let mut c = col("t");
    c.default = Some(DefaultValue::CurrentTimestamp);
    assert_eq!(failure_of(add("a", c)).cause, SchemaError::NonConstantDefault);
}

#[test]
fn index_on_missing_column_fails() {
    let ix = Index { name: "ix".to_string(), table: "a".to_string(), columns: vec!["nope".to_string()] };
    assert_eq!(failure_of(SchemaChange::CreateIndex(ix)).cause, SchemaError::MissingColumn);
}

#[test]
fn index_on_missing_table_fails() {
    let ix = Index { name: "ix".to_string(), table: "zz".to_string(), columns: vec![] };
    let e = failure_of(SchemaChange::CreateIndex(ix));
    assert_eq!(e.cause, SchemaError::MissingTable);
    assert_eq!(e.table, "zz");
}

#[test]
fn table_with_repeated_column_fails() {
    assert_eq!(failure_of(create("b", &["x", "x"])).cause, SchemaError::DuplicateColumn);
}

#[test]
fn creating_existing_table_is_skipped() {
    let r = Registry::new(vec![
        mig(1, vec![create("a", &["id"])]),
        mig(2, vec![create("a", &["other"])]),
    ])
    .unwrap();
    let mut s = Store::new();
    assert_eq!(s.migrate(&r).unwrap(), vec![1, 2]);
    assert_eq!(s.schema.tables.len(), 1);
    assert!(s.schema.find_column(&"a".to_string(), &"other".to_string()).is_none());
}

fn text_default(s: &Store, table: &str, column: &str) -> Option<String> {
    let c = s.schema.find_column(&table.to_string(), &column.to_string()).expect("column");
    match &c.default {
        Some(DefaultValue::Text(t)) => Some(t.clone()),
        _ => None,
    }
}

#[test]
fn app_registry_builds_version_five_schema() {
    let r = app_registry();
    assert_eq!(r.latest_version(), 5);
    let mut s = Store::new();
    assert_eq!(s.migrate(&r).unwrap(), vec![1, 2, 3, 4, 5]);
    assert_eq!(s.version, 5);
    assert!(s.schema.find_column(&"clients".to_string(), &"type_account".to_string()).is_some());
    assert!(s.schema.find_column(&"clients".to_string(), &"power_of_attorney".to_string()).is_some());
    assert_eq!(text_default(&s, "clients", "annual_review_date"), Some("N/A".to_string()));
    assert_eq!(text_default(&s, "clients", "fees_commission_rate"), Some("N/A".to_string()));
    assert_eq!(text_default(&s, "clients", "risk"), Some("Medium".to_string()));
    assert_eq!(text_default(&s, "trades", "side"), Some("Buy".to_string()));
    assert_eq!(text_default(&s, "suitability_letters", "status"), Some("draft".to_string()));
    assert_eq!(s.schema.tables.len(), 3);
    assert_eq!(s.schema.indexes.len(), 3);
    assert_eq!(s.migrate(&r).unwrap(), Vec::<u64>::new());
    assert_eq!(s.version, 5);
}
