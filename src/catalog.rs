use vstd::prelude::*;

use crate::model::{
    client_from_new, letter_from_new, trade_from_new, Client, NewClient, NewLetter, NewTrade,
    SuitabilityLetter, Trade,
};
use crate::migration::{migration_views, run_outcome, RunOutcome, Migration, MigrationKind, MigrationView, Registry};
use crate::schema::{
    change_outcome, changes_outcome, columns_distinct, has_column, has_index, has_table, table_at, all_columns_exist, SchemaError, SchemaView,
    change_views, column_views, string_views, ChangeView, Column, ColumnType, ColumnView,
    DefaultValue, DefaultView, Index, IndexView, SchemaChange, Table, TableView,
};

verus! {

/// A nullable column without default.
pub open spec fn text_spec(name: Seq<char>) -> ColumnView {
    ColumnView {
        name,
        ty: ColumnType::Text,
        not_null: false,
        primary_key: false,
        auto_increment: false,
        default: None,
        references: None,
    }
}

/// A NOT NULL text column without default.
pub open spec fn required_text_spec(name: Seq<char>) -> ColumnView {
    ColumnView { not_null: true, ..text_spec(name) }
}

/// A NOT NULL text column with a text default.
pub open spec fn text_default_spec(name: Seq<char>, d: Seq<char>) -> ColumnView {
    ColumnView { not_null: true, default: Some(DefaultView::Text(d)), ..text_spec(name) }
}

/// A timestamp column that defaults to the time of the insert.
pub open spec fn timestamp_spec(name: Seq<char>) -> ColumnView {
    ColumnView { ty: ColumnType::DateTime, default: Some(DefaultView::CurrentTimestamp), ..text_spec(name) }
}

/// An auto-incrementing integer primary key called `id`.
pub open spec fn serial_key_spec() -> ColumnView {
    ColumnView { ty: ColumnType::Integer, primary_key: true, auto_increment: true, ..text_spec("id"@) }
}

/// The NOT NULL `client_id` column that refers to `clients`.
pub open spec fn client_reference_spec() -> ColumnView {
    ColumnView { references: Some("clients"@), ..required_text_spec("client_id"@) }
}

pub open spec fn clients_columns_spec() -> Seq<ColumnView> {
    seq![
        ColumnView { primary_key: true, ..text_spec("id"@) },
        required_text_spec("first_name"@),
        required_text_spec("last_name"@),
        text_spec("investment_manager"@),
        text_default_spec("knowledge_experience"@, "Medium"@),
        ColumnView {
            ty: ColumnType::Integer,
            not_null: true,
            default: Some(DefaultView::Integer(0)),
            ..text_spec("loss_pct"@)
        },
        required_text_spec("account_number"@),
        text_spec("salutation"@),
        text_default_spec("objective"@, "Balance"@),
        text_default_spec("risk"@, "Medium"@),
        text_spec("email"@),
        text_spec("phone"@),
        text_spec("address"@),
        timestamp_spec("created_at"@),
        timestamp_spec("updated_at"@),
    ]
}

pub open spec fn trades_columns_spec() -> Seq<ColumnView> {
    seq![
        serial_key_spec(),
        client_reference_spec(),
        required_text_spec("asset_name"@),
        text_default_spec("account_type"@, "ISA"@),
        text_default_spec("asset_type"@, "Equity"@),
        text_default_spec("asset_risk"@, "Medium"@),
        text_default_spec("side"@, "Buy"@),
        text_spec("quantity"@),
        text_spec("time_of_trade"@),
        text_spec("date_of_trade"@),
        text_spec("reason_1"@),
        text_spec("reason_2"@),
        text_spec("reason_3"@),
        timestamp_spec("created_at"@),
    ]
}

pub open spec fn letters_columns_spec() -> Seq<ColumnView> {
    seq![
        serial_key_spec(),
        client_reference_spec(),
        text_spec("content"@),
        text_spec("pdf_path"@),
        text_default_spec("status"@, "draft"@),
        timestamp_spec("created_at"@),
        timestamp_spec("updated_at"@),
    ]
}

pub open spec fn add_client_column_spec(c: ColumnView) -> ChangeView {
    ChangeView::AddColumn { table: "clients"@, column: c }
}

/// The application's five migrations, change by change.
pub open spec fn app_migrations() -> Seq<MigrationView> {
    seq![
        MigrationView {
            version: 1,
            description: "create_clients_table"@,
            changes: seq![
                ChangeView::CreateTable(TableView { name: "clients"@, columns: clients_columns_spec() }),
                ChangeView::CreateIndex(
                    IndexView {
                        name: "idx_clients_name"@,
                        table: "clients"@,
                        columns: seq!["last_name"@, "first_name"@],
                    },
                ),
                ChangeView::CreateIndex(
                    IndexView {
                        name: "idx_clients_manager"@,
                        table: "clients"@,
                        columns: seq!["investment_manager"@],
                    },
                ),
            ],
        },
        MigrationView {
            version: 2,
            description: "create_trades_table"@,
            changes: seq![
                ChangeView::CreateTable(TableView { name: "trades"@, columns: trades_columns_spec() }),
                ChangeView::CreateIndex(
                    IndexView {
                        name: "idx_trades_client"@,
                        table: "trades"@,
                        columns: seq!["client_id"@],
                    },
                ),
            ],
        },
        MigrationView {
            version: 3,
            description: "create_suitability_letters_table"@,
            changes: seq![
                ChangeView::CreateTable(
                    TableView { name: "suitability_letters"@, columns: letters_columns_spec() },
                ),
            ],
        },
        MigrationView {
            version: 4,
            description: "add_account_type_to_clients"@,
            changes: seq![add_client_column_spec(text_spec("type_account"@))],
        },
        MigrationView {
            version: 5,
            description: "add_powerOfAttorney_annualReviewDate_feesCommissionRate_types_to_clients"@,
            changes: seq![
                add_client_column_spec(text_spec("power_of_attorney"@)),
                add_client_column_spec(text_default_spec("annual_review_date"@, "N/A"@)),
                add_client_column_spec(text_default_spec("fees_commission_rate"@, "N/A"@)),
            ],
        },
    ]
}

fn text(name: &str) -> (r: Column)
    ensures
        r@ == text_spec(name@),
{
    Column {
        name: String::from_str(name),
        ty: ColumnType::Text,
        not_null: false,
        primary_key: false,
        auto_increment: false,
        default: None,
        references: None,
    }
}

fn required_text(name: &str) -> (r: Column)
    ensures
        r@ == required_text_spec(name@),
{
    let mut c = text(name);
    c.not_null = true;
    c
}

fn text_with_default(name: &str, default: &str) -> (r: Column)
    ensures
        r@ == text_default_spec(name@, default@),
{
    let mut c = required_text(name);
    c.default = Some(DefaultValue::Text(String::from_str(default)));
    c
}

fn timestamp(name: &str) -> (r: Column)
    ensures
        r@ == timestamp_spec(name@),
{
    let mut c = text(name);
    c.ty = ColumnType::DateTime;
    c.default = Some(DefaultValue::CurrentTimestamp);
    c
}

fn serial_key() -> (r: Column)
    ensures
        r@ == serial_key_spec(),
{
    let mut c = text("id");
    c.ty = ColumnType::Integer;
    c.primary_key = true;
    c.auto_increment = true;
    c
}

fn client_reference() -> (r: Column)
    ensures
        r@ == client_reference_spec(),
{
    let mut c = required_text("client_id");
    c.references = Some(String::from_str("clients"));
    c
}

fn index(name: &str, table: &str, columns: Vec<String>) -> (r: Index)
    ensures
        r@ == (IndexView { name: name@, table: table@, columns: string_views(columns@) }),
{
    Index { name: String::from_str(name), table: String::from_str(table), columns }
}

fn clients_table() -> (r: Vec<SchemaChange>)
    ensures
        change_views(r@) == app_migrations()[0].changes,
{
    let mut id = text("id");
    id.primary_key = true;
    let mut loss_pct = text("loss_pct");
    loss_pct.ty = ColumnType::Integer;
    loss_pct.not_null = true;
    loss_pct.default = Some(DefaultValue::Integer(0));
    let columns = vec![
        id,
        required_text("first_name"),
        required_text("last_name"),
        text("investment_manager"),
        text_with_default("knowledge_experience", "Medium"),
        loss_pct,
        required_text("account_number"),
        text("salutation"),
        text_with_default("objective", "Balance"),
        text_with_default("risk", "Medium"),
        text("email"),
        text("phone"),
        text("address"),
        timestamp("created_at"),
        timestamp("updated_at"),
    ];
    assert(column_views(columns@) =~= clients_columns_spec());
    let name_cols = vec![String::from_str("last_name"), String::from_str("first_name")];
    assert(string_views(name_cols@) =~= seq!["last_name"@, "first_name"@]);
    let manager_cols = vec![String::from_str("investment_manager")];
    assert(string_views(manager_cols@) =~= seq!["investment_manager"@]);
    let r = vec![
        SchemaChange::CreateTable(Table { name: String::from_str("clients"), columns }),
        SchemaChange::CreateIndex(index("idx_clients_name", "clients", name_cols)),
        SchemaChange::CreateIndex(index("idx_clients_manager", "clients", manager_cols)),
    ];
    assert(change_views(r@) =~= app_migrations()[0].changes);
    r
}

fn trades_table() -> (r: Vec<SchemaChange>)
    ensures
        change_views(r@) == app_migrations()[1].changes,
{
    let columns = vec![
        serial_key(),
        client_reference(),
        required_text("asset_name"),
        text_with_default("account_type", "ISA"),
        text_with_default("asset_type", "Equity"),
        text_with_default("asset_risk", "Medium"),
        text_with_default("side", "Buy"),
        text("quantity"),
        text("time_of_trade"),
        text("date_of_trade"),
        text("reason_1"),
        text("reason_2"),
        text("reason_3"),
        timestamp("created_at"),
    ];
    assert(column_views(columns@) =~= trades_columns_spec());
    let client_cols = vec![String::from_str("client_id")];
    assert(string_views(client_cols@) =~= seq!["client_id"@]);
    let r = vec![
        SchemaChange::CreateTable(Table { name: String::from_str("trades"), columns }),
        SchemaChange::CreateIndex(index("idx_trades_client", "trades", client_cols)),
    ];
    assert(change_views(r@) =~= app_migrations()[1].changes);
    r
}

fn letters_table() -> (r: Vec<SchemaChange>)
    ensures
        change_views(r@) == app_migrations()[2].changes,
{
    let columns = vec![
        serial_key(),
        client_reference(),
        text("content"),
        text("pdf_path"),
        text_with_default("status", "draft"),
        timestamp("created_at"),
        timestamp("updated_at"),
    ];
    assert(column_views(columns@) =~= letters_columns_spec());
    let r = vec![
        SchemaChange::CreateTable(Table { name: String::from_str("suitability_letters"), columns }),
    ];
    assert(change_views(r@) =~= app_migrations()[2].changes);
    r
}

fn add_client_column(column: Column) -> (r: SchemaChange)
    ensures
        r@ == add_client_column_spec(column@),
{
    SchemaChange::AddColumn { table: String::from_str("clients"), column }
}

fn migration(version: u64, description: &str, changes: Vec<SchemaChange>) -> (r: Migration)
    ensures
        r@ == (MigrationView { version, description: description@, changes: change_views(changes@) }),
{
    Migration { version, description: String::from_str(description), kind: MigrationKind::Up, changes }
}

/// The application's migrations: clients, trades and suitability letters, then
/// the later client columns, versions 1 to 5, exactly as `app_migrations` lists them.
pub fn app_registry() -> (r: Registry)
    ensures
        r@ == app_migrations(),
{
    let m4 = vec![add_client_column(text("type_account"))];
    assert(change_views(m4@) =~= app_migrations()[3].changes);
    let m5 = vec![
        add_client_column(text("power_of_attorney")),
        add_client_column(text_with_default("annual_review_date", "N/A")),
        add_client_column(text_with_default("fees_commission_rate", "N/A")),
    ];
    assert(change_views(m5@) =~= app_migrations()[4].changes);
    let ms = vec![
        migration(1, "create_clients_table", clients_table()),
        migration(2, "create_trades_table", trades_table()),
        migration(3, "create_suitability_letters_table", letters_table()),
        migration(4, "add_account_type_to_clients", m4),
        migration(
            5,
            "add_powerOfAttorney_annualReviewDate_feesCommissionRate_types_to_clients",
            m5,
        ),
    ];
    assert(migration_views(ms@) =~= app_migrations());
    match Registry::new(ms) {
        Ok(r) => r,
        Err(_) => {
            proof {
                assert(ms@[0].version == 1 && ms@[1].version == 2 && ms@[2].version == 3
                    && ms@[3].version == 4 && ms@[4].version == 5);
            }
            vstd::pervasive::unreached()
        },
    }
}

spec fn name_sig(s: Seq<char>) -> (int, char, char, char) {
    (s.len() as int, s[0], s[6], s[s.len() - 1])
}

proof fn lemma_distinct_by_sig(cs: Seq<ColumnView>)
    requires
        forall|a: int, b: int|
            0 <= a < b < cs.len() ==> name_sig(cs[a].name) != name_sig(cs[b].name),
    ensures
        columns_distinct(cs),
{
}

proof fn lemma_absent_by_sig(cs: Seq<ColumnView>, n: Seq<char>)
    requires
        forall|j: int| 0 <= j < cs.len() ==> name_sig(#[trigger] cs[j].name) != name_sig(n),
    ensures
        !has_column(cs, n),
{
}

pub open spec fn clients_table_v5() -> TableView {
    TableView {
        name: "clients"@,
        columns: clients_columns_spec() + seq![
            text_spec("type_account"@),
            text_spec("power_of_attorney"@),
            text_default_spec("annual_review_date"@, "N/A"@),
            text_default_spec("fees_commission_rate"@, "N/A"@),
        ],
    }
}

pub open spec fn versions_of(ms: Seq<MigrationView>) -> Seq<u64> {
    ms.map_values(|m: MigrationView| m.version)
}

proof fn lemma_run_suffix(ms: Seq<MigrationView>, st: Seq<SchemaView>, k: int)
    requires
        ms.len() == 5,
        st.len() == 6,
        0 <= k <= 5,
        forall|i: int| 0 <= i < 5 ==> (#[trigger] ms[i]).version == i + 1,
        forall|i: int|
            0 <= i < 5 ==> changes_outcome(st[i], (#[trigger] ms[i]).changes) == Ok::<SchemaView, (int, SchemaError)>(st[i + 1]),
    ensures
        run_outcome(k as u64, st[k], ms.skip(k)) == (RunOutcome {
            version: 5,
            schema: st[5],
            applied: versions_of(ms.skip(k)),
            failure: None,
        }),
    decreases 5 - k,
{
    if k == 5 {
        assert(ms.skip(5) =~= Seq::<MigrationView>::empty());
        assert(versions_of(ms.skip(5)) =~= Seq::<u64>::empty());
    } else {
        lemma_run_suffix(ms, st, k + 1);
        let rest = ms.skip(k);
        assert(rest[0] == ms[k]);
        assert(rest.drop_first() =~= ms.skip(k + 1));
        assert(versions_of(rest) =~= seq![ms[k].version] + versions_of(ms.skip(k + 1)));
    }
}

/// On a fresh store the application's migrations all succeed, in order 1 to
/// 5, and leave the clients table (with `type_account`, `power_of_attorney`,
/// and `annual_review_date` and `fees_commission_rate` defaulting to "N/A"),
/// the trades table and the suitability-letters table.
spec fn st_trades() -> TableView {
    TableView { name: "trades"@, columns: trades_columns_spec() }
}

spec fn st_letters() -> TableView {
    TableView { name: "suitability_letters"@, columns: letters_columns_spec() }
}

spec fn st_indexes() -> Seq<IndexView> {
    seq![
        IndexView { name: "idx_clients_name"@, table: "clients"@, columns: seq!["last_name"@, "first_name"@] },
        IndexView { name: "idx_clients_manager"@, table: "clients"@, columns: seq!["investment_manager"@] },
        IndexView { name: "idx_trades_client"@, table: "trades"@, columns: seq!["client_id"@] },
    ]
}

spec fn st_clients4() -> TableView {
    TableView { name: "clients"@, columns: clients_columns_spec().push(text_spec("type_account"@)) }
}

spec fn st_after1() -> SchemaView {
    SchemaView {
        tables: seq![TableView { name: "clients"@, columns: clients_columns_spec() }],
        indexes: st_indexes().take(2),
    }
}

spec fn st_after2() -> SchemaView {
    SchemaView {
        tables: seq![TableView { name: "clients"@, columns: clients_columns_spec() }, st_trades()],
        indexes: st_indexes(),
    }
}

spec fn st_after3() -> SchemaView {
    SchemaView {
        tables: seq![
            TableView { name: "clients"@, columns: clients_columns_spec() },
            st_trades(),
            st_letters(),
        ],
        indexes: st_indexes(),
    }
}

spec fn st_after4() -> SchemaView {
    SchemaView { tables: seq![st_clients4(), st_trades(), st_letters()], indexes: st_indexes() }
}

spec fn st_after5() -> SchemaView {
    SchemaView { tables: seq![clients_table_v5(), st_trades(), st_letters()], indexes: st_indexes() }
}

#[verifier::rlimit(40)]
proof fn lemma_app_schema_steps()
    ensures
        changes_outcome(SchemaView::empty(), app_migrations()[0].changes) == Ok::<SchemaView, (int, SchemaError)>(st_after1()),
        changes_outcome(st_after1(), app_migrations()[1].changes) == Ok::<SchemaView, (int, SchemaError)>(st_after2()),
        changes_outcome(st_after2(), app_migrations()[2].changes) == Ok::<SchemaView, (int, SchemaError)>(st_after3()),
        changes_outcome(st_after3(), app_migrations()[3].changes) == Ok::<SchemaView, (int, SchemaError)>(st_after4()),
        changes_outcome(st_after4(), app_migrations()[4].changes) == Ok::<SchemaView, (int, SchemaError)>(st_after5()),
{
    reveal_strlit("clients");
    reveal_strlit("trades");
    reveal_strlit("suitability_letters");
    reveal_strlit("id");
    reveal_strlit("first_name");
    reveal_strlit("last_name");
    reveal_strlit("investment_manager");
    reveal_strlit("knowledge_experience");
    reveal_strlit("loss_pct");
    reveal_strlit("account_number");
    reveal_strlit("salutation");
    reveal_strlit("objective");
    reveal_strlit("risk");
    reveal_strlit("email");
    reveal_strlit("phone");
    reveal_strlit("address");
    reveal_strlit("created_at");
    reveal_strlit("updated_at");
    reveal_strlit("client_id");
    reveal_strlit("asset_name");
    reveal_strlit("account_type");
    reveal_strlit("asset_type");
    reveal_strlit("asset_risk");
    reveal_strlit("side");
    reveal_strlit("quantity");
    reveal_strlit("time_of_trade");
    reveal_strlit("date_of_trade");
    reveal_strlit("reason_1");
    reveal_strlit("reason_2");
    reveal_strlit("reason_3");
    reveal_strlit("content");
    reveal_strlit("pdf_path");
    reveal_strlit("status");
    reveal_strlit("type_account");
    reveal_strlit("power_of_attorney");
    reveal_strlit("annual_review_date");
    reveal_strlit("fees_commission_rate");
    reveal_strlit("idx_clients_name");
    reveal_strlit("idx_clients_manager");
    reveal_strlit("idx_trades_client");
    lemma_distinct_by_sig(clients_columns_spec());
    lemma_distinct_by_sig(trades_columns_spec());
    lemma_distinct_by_sig(letters_columns_spec());
    assert("idx_clients_name"@ != "idx_clients_manager"@) by {
        assert("idx_clients_name"@.len() != "idx_clients_manager"@.len());
    }
    assert("idx_trades_client"@ != "idx_clients_manager"@) by {
        assert("idx_trades_client"@.len() != "idx_clients_manager"@.len());
    }
    assert("idx_trades_client"@ != "idx_clients_name"@) by {
        assert("idx_trades_client"@.len() != "idx_clients_name"@.len());
    }
    assert("clients"@ != "trades"@) by {
        assert("clients"@.len() != "trades"@.len());
    }
    assert("suitability_letters"@ != "trades"@) by {
        assert("suitability_letters"@.len() != "trades"@.len());
    }
    assert("suitability_letters"@ != "clients"@) by {
        assert("suitability_letters"@.len() != "clients"@.len());
    }
    let c0 = TableView { name: "clients"@, columns: clients_columns_spec() };
    let tr = TableView { name: "trades"@, columns: trades_columns_spec() };
    let le = TableView { name: "suitability_letters"@, columns: letters_columns_spec() };
    let ms = app_migrations();
    let i1 = IndexView { name: "idx_clients_name"@, table: "clients"@, columns: seq!["last_name"@, "first_name"@] };
    let i2 = IndexView { name: "idx_clients_manager"@, table: "clients"@, columns: seq!["investment_manager"@] };
    let i3 = IndexView { name: "idx_trades_client"@, table: "trades"@, columns: seq!["client_id"@] };
    let ixs = seq![i1, i2, i3];
    // migration 1
    let sa = SchemaView { tables: seq![c0], indexes: seq![] };
    let sb = SchemaView { tables: seq![c0], indexes: seq![i1] };
    let sc = SchemaView { tables: seq![c0], indexes: seq![i1, i2] };
    assert(change_outcome(SchemaView::empty(), ms[0].changes[0]) == Ok::<SchemaView, SchemaError>(sa));
    assert(sa.tables[0].name == "clients"@);
    assert(c0.columns[2].name == "last_name"@);
    assert(c0.columns[1].name == "first_name"@);
    assert(c0.columns[3].name == "investment_manager"@);
    assert(has_column(c0.columns, "last_name"@));
    assert(has_column(c0.columns, "first_name"@));
    assert(has_column(c0.columns, "investment_manager"@));
    assert(change_outcome(sa, ms[0].changes[1]) == Ok::<SchemaView, SchemaError>(sb));
    assert(sb.tables[0].name == "clients"@);
    assert(ms[0].changes[2] == ChangeView::CreateIndex(i2));
    assert(!has_index(sb.indexes, i2.name));
    assert(has_table(sb.tables, i2.table));
    assert(table_at(sb.tables, i2.table) == 0);
    assert(all_columns_exist(c0.columns, i2.columns));
    assert(sb.indexes.push(i2) == sc.indexes);
    assert(change_outcome(sb, ms[0].changes[2]) == Ok::<SchemaView, SchemaError>(sc));
    reveal_with_fuel(changes_outcome, 4);
    assert(ms[0].changes.drop_first() =~= seq![ms[0].changes[1], ms[0].changes[2]]);
    assert(ms[0].changes.drop_first().drop_first() =~= seq![ms[0].changes[2]]);
    assert(ms[0].changes.drop_first().drop_first().drop_first() =~= Seq::<ChangeView>::empty());
    assert(changes_outcome(SchemaView::empty(), ms[0].changes) == Ok::<SchemaView, (int, SchemaError)>(sc));
    // migration 2
    let sd = SchemaView { tables: seq![c0, tr], indexes: seq![i1, i2] };
    let se = SchemaView { tables: seq![c0, tr], indexes: ixs };
    assert(!has_table(sc.tables, "trades"@));
    assert(sc.tables.push(tr) == sd.tables);
    assert(change_outcome(sc, ms[1].changes[0]) == Ok::<SchemaView, SchemaError>(sd));
    assert(sd.tables[1].name == "trades"@);
    assert(tr.columns[1].name == "client_id"@);
    assert(has_column(tr.columns, "client_id"@));
    assert(ms[1].changes[1] == ChangeView::CreateIndex(i3));
    assert(!has_index(sd.indexes, i3.name));
    assert(has_table(sd.tables, i3.table));
    assert(table_at(sd.tables, i3.table) == 1);
    assert(all_columns_exist(tr.columns, i3.columns));
    assert(sd.indexes.push(i3) == se.indexes);
    assert(change_outcome(sd, ms[1].changes[1]) == Ok::<SchemaView, SchemaError>(se));
    assert(ms[1].changes.drop_first() =~= seq![ms[1].changes[1]]);
    assert(ms[1].changes.drop_first().drop_first() =~= Seq::<ChangeView>::empty());
    assert(changes_outcome(sc, ms[1].changes) == Ok::<SchemaView, (int, SchemaError)>(se));
    // migration 3
    let sf = SchemaView { tables: seq![c0, tr, le], indexes: ixs };
    assert(!has_table(se.tables, "suitability_letters"@));
    assert(se.tables.push(le) == sf.tables);
    assert(change_outcome(se, ms[2].changes[0]) == Ok::<SchemaView, SchemaError>(sf));
    assert(ms[2].changes.drop_first() =~= Seq::<ChangeView>::empty());
    assert(changes_outcome(se, ms[2].changes) == Ok::<SchemaView, (int, SchemaError)>(sf));
    // migration 4
    let ta = text_spec("type_account"@);
    let poa = text_spec("power_of_attorney"@);
    let ard = text_default_spec("annual_review_date"@, "N/A"@);
    let fcr = text_default_spec("fees_commission_rate"@, "N/A"@);
    let c1 = TableView { name: "clients"@, columns: c0.columns.push(ta) };
    let c2 = TableView { name: "clients"@, columns: c1.columns.push(poa) };
    let c3 = TableView { name: "clients"@, columns: c2.columns.push(ard) };
    let c4 = TableView { name: "clients"@, columns: c3.columns.push(fcr) };
    let sg = SchemaView { tables: seq![c1, tr, le], indexes: ixs };
    assert(has_table(sf.tables, "clients"@));
    assert(table_at(sf.tables, "clients"@) == 0);
    lemma_absent_by_sig(c0.columns, "type_account"@);
    assert(sf.tables.update(0, c1) =~= sg.tables);
    assert(change_outcome(sf, ms[3].changes[0]) == Ok::<SchemaView, SchemaError>(sg));
    assert(ms[3].changes.drop_first() =~= Seq::<ChangeView>::empty());
    assert(changes_outcome(sf, ms[3].changes) == Ok::<SchemaView, (int, SchemaError)>(sg));
    // migration 5
    let sh1 = SchemaView { tables: seq![c2, tr, le], indexes: ixs };
    let sh2 = SchemaView { tables: seq![c3, tr, le], indexes: ixs };
    let sh3 = SchemaView { tables: seq![c4, tr, le], indexes: ixs };
    assert(has_table(sg.tables, "clients"@));
    assert(table_at(sg.tables, "clients"@) == 0);
    lemma_absent_by_sig(c1.columns, "power_of_attorney"@);
    assert(sg.tables.update(0, c2) =~= sh1.tables);
    assert(change_outcome(sg, ms[4].changes[0]) == Ok::<SchemaView, SchemaError>(sh1));
    assert(has_table(sh1.tables, "clients"@));
    assert(table_at(sh1.tables, "clients"@) == 0);
    lemma_absent_by_sig(c2.columns, "annual_review_date"@);
    assert(sh1.tables.update(0, c3) =~= sh2.tables);
    assert(change_outcome(sh1, ms[4].changes[1]) == Ok::<SchemaView, SchemaError>(sh2));
    assert(has_table(sh2.tables, "clients"@));
    assert(table_at(sh2.tables, "clients"@) == 0);
    lemma_absent_by_sig(c3.columns, "fees_commission_rate"@);
    assert(sh2.tables.update(0, c4) =~= sh3.tables);
    assert(change_outcome(sh2, ms[4].changes[2]) == Ok::<SchemaView, SchemaError>(sh3));
    assert(ms[4].changes.drop_first() =~= seq![ms[4].changes[1], ms[4].changes[2]]);
    assert(ms[4].changes.drop_first().drop_first() =~= seq![ms[4].changes[2]]);
    assert(ms[4].changes.drop_first().drop_first().drop_first() =~= Seq::<ChangeView>::empty());
    assert(changes_outcome(sg, ms[4].changes) == Ok::<SchemaView, (int, SchemaError)>(sh3));
    assert(c4.columns =~= clients_table_v5().columns);
    assert(st_indexes().take(2) =~= seq![i1, i2]);
    assert(st_indexes() =~= ixs);
    assert(sc == st_after1());
    assert(se == st_after2());
    assert(sf == st_after3());
    assert(sg == st_after4());
    assert(sh3.tables =~= st_after5().tables);
}

pub proof fn lemma_app_migrations_from_fresh()
    ensures
        ({
            let o = run_outcome(0, SchemaView::empty(), app_migrations());
            &&& o.failure is None
            &&& o.version == 5
            &&& o.applied == seq![1u64, 2, 3, 4, 5]
            &&& o.schema.tables == seq![
                clients_table_v5(),
                TableView { name: "trades"@, columns: trades_columns_spec() },
                TableView { name: "suitability_letters"@, columns: letters_columns_spec() },
            ]
        }),
{
    lemma_app_schema_steps();
    let ms = app_migrations();
    let st = seq![SchemaView::empty(), st_after1(), st_after2(), st_after3(), st_after4(), st_after5()];
    assert forall|i: int| 0 <= i < 5 implies (#[trigger] ms[i]).version == i + 1 by {}
    assert forall|i: int|
        0 <= i < 5 implies changes_outcome(st[i], (#[trigger] ms[i]).changes) == Ok::<SchemaView, (int, SchemaError)>(st[i + 1]) by {}
    lemma_run_suffix(ms, st, 0);
    assert(ms.skip(0) =~= ms);
    assert(versions_of(ms) =~= seq![1u64, 2, 3, 4, 5]);
}

/// Records built from requests that leave every defaulted field out hold, in
/// each such field, the default that the field's column declares in the
/// tables the application's migrations build.
pub proof fn lemma_record_defaults_match_schema(
    c: Client,
    n: NewClient,
    t: Trade,
    nt: NewTrade,
    trade_id: u64,
    l: SuitabilityLetter,
    nl: NewLetter,
    letter_id: u64,
    now: Seq<char>,
)
    requires
        client_from_new(c, n),
        n.knowledge_experience is None,
        n.loss_pct is None,
        n.objective is None,
        n.risk is None,
        n.annual_review_date is None,
        n.fees_commission_rate is None,
        trade_from_new(t, nt, trade_id, now),
        nt.account_type is None,
        nt.asset_type is None,
        nt.asset_risk is None,
        nt.side is None,
        letter_from_new(l, nl, letter_id, now),
        nl.status is None,
    ensures
        ({
            let cc = clients_table_v5().columns;
            let tc = trades_columns_spec();
            let lc = letters_columns_spec();
            &&& cc[4] == text_default_spec("knowledge_experience"@, c.knowledge_experience@)
            &&& cc[5].name == "loss_pct"@ && cc[5].default == Some(DefaultView::Integer(c.loss_pct as i64))
            &&& cc[8] == text_default_spec("objective"@, c.objective@)
            &&& cc[9] == text_default_spec("risk"@, c.risk@)
            &&& cc[17] == text_default_spec("annual_review_date"@, c.annual_review_date@)
            &&& cc[18] == text_default_spec("fees_commission_rate"@, c.fees_commission_rate@)
            &&& tc[3] == text_default_spec("account_type"@, t.account_type@)
            &&& tc[4] == text_default_spec("asset_type"@, t.asset_type@)
            &&& tc[5] == text_default_spec("asset_risk"@, t.asset_risk@)
            &&& tc[6] == text_default_spec("side"@, t.side@)
            &&& lc[4] == text_default_spec("status"@, l.status@)
        }),
{
}

} // verus!
