use vstd::prelude::*;

verus! {

/// Storage class of a column.
#[derive(Clone, Copy, Debug, PartialEq, Eq, Structural)]
pub enum ColumnType {
    Text,
    Integer,
    DateTime,
}

/// Value a column takes when an insert leaves it out.
#[derive(Debug)]
pub enum DefaultValue {
    Text(String),
    Integer(i64),
    CurrentTimestamp,
}

pub enum DefaultView {
    Text(Seq<char>),
    Integer(i64),
    CurrentTimestamp,
}

impl View for DefaultValue {
    type V = DefaultView;

    open spec fn view(&self) -> DefaultView {
        match self {
            DefaultValue::Text(s) => DefaultView::Text(s@),
            DefaultValue::Integer(i) => DefaultView::Integer(*i),
            DefaultValue::CurrentTimestamp => DefaultView::CurrentTimestamp,
        }
    }
}

impl DefaultValue {
    pub fn copy(&self) -> (r: DefaultValue)
        ensures
            r@ == self@,
    {
        match self {
            DefaultValue::Text(s) => DefaultValue::Text(s.clone()),
            DefaultValue::Integer(i) => DefaultValue::Integer(*i),
            DefaultValue::CurrentTimestamp => DefaultValue::CurrentTimestamp,
        }
    }
}

pub open spec fn opt_str_view(o: Option<String>) -> Option<Seq<char>> {
    match o {
        Some(s) => Some(s@),
        None => None,
    }
}

pub fn copy_opt_str(o: &Option<String>) -> (r: Option<String>)
    ensures
        opt_str_view(r) == opt_str_view(*o),
{
    match o {
        Some(s) => Some(s.clone()),
        None => None,
    }
}

/// One column of a table.
#[derive(Debug)]
pub struct Column {
    pub name: String,
    pub ty: ColumnType,
    pub not_null: bool,
    pub primary_key: bool,
    pub auto_increment: bool,
    pub default: Option<DefaultValue>,
    /// Table whose primary key this column refers to.
    pub references: Option<String>,
}

pub struct ColumnView {
    pub name: Seq<char>,
    pub ty: ColumnType,
    pub not_null: bool,
    pub primary_key: bool,
    pub auto_increment: bool,
    pub default: Option<DefaultView>,
    pub references: Option<Seq<char>>,
}

impl View for Column {
    type V = ColumnView;

    open spec fn view(&self) -> ColumnView {
        ColumnView {
            name: self.name@,
            ty: self.ty,
            not_null: self.not_null,
            primary_key: self.primary_key,
            auto_increment: self.auto_increment,
            default: match self.default {
                Some(d) => Some(d@),
                None => None,
            },
            references: opt_str_view(self.references),
        }
    }
}

impl Column {
    pub fn copy(&self) -> (r: Column)
        ensures
            r@ == self@,
    {
        let default = match &self.default {
            Some(d) => Some(d.copy()),
            None => None,
        };
        Column {
            name: self.name.clone(),
            ty: self.ty,
            not_null: self.not_null,
            primary_key: self.primary_key,
            auto_increment: self.auto_increment,
            default,
            references: copy_opt_str(&self.references),
        }
    }
}

/// A table: its name and its columns in declaration order.
#[derive(Debug)]
pub struct Table {
    pub name: String,
    pub columns: Vec<Column>,
}

pub struct TableView {
    pub name: Seq<char>,
    pub columns: Seq<ColumnView>,
}

pub open spec fn column_views(cs: Seq<Column>) -> Seq<ColumnView> {
    cs.map_values(|c: Column| c@)
}

pub open spec fn string_views(cs: Seq<String>) -> Seq<Seq<char>> {
    cs.map_values(|c: String| c@)
}

impl View for Table {
    type V = TableView;

    open spec fn view(&self) -> TableView {
        TableView { name: self.name@, columns: column_views(self.columns@) }
    }
}

pub fn copy_columns(cs: &Vec<Column>) -> (r: Vec<Column>)
    ensures
        column_views(r@) == column_views(cs@),
{
    let mut r: Vec<Column> = Vec::new();
    let mut i: usize = 0;
    while i < cs.len()
        invariant
            i <= cs.len(),
            r.len() == i,
            forall|j: int| 0 <= j < i ==> (#[trigger] r@[j])@ == cs@[j]@,
        decreases cs.len() - i,
    {
        r.push(cs[i].copy());
        i = i + 1;
    }
    assert(column_views(r@) =~= column_views(cs@));
    r
}

impl Table {
    pub fn copy(&self) -> (r: Table)
        ensures
            r@ == self@,
    {
        Table { name: self.name.clone(), columns: copy_columns(&self.columns) }
    }
}

/// A secondary index over columns of one table.
#[derive(Debug)]
pub struct Index {
    pub name: String,
    pub table: String,
    pub columns: Vec<String>,
}

pub struct IndexView {
    pub name: Seq<char>,
    pub table: Seq<char>,
    pub columns: Seq<Seq<char>>,
}

impl View for Index {
    type V = IndexView;

    open spec fn view(&self) -> IndexView {
        IndexView {
            name: self.name@,
            table: self.table@,
            columns: string_views(self.columns@),
        }
    }
}

impl Index {
    pub fn copy(&self) -> (r: Index)
        ensures
            r@ == self@,
    {
        let mut cols: Vec<String> = Vec::new();
        let mut i: usize = 0;
        while i < self.columns.len()
            invariant
                i <= self.columns.len(),
                cols.len() == i,
                forall|j: int| 0 <= j < i ==> (#[trigger] cols@[j])@ == self.columns@[j]@,
            decreases self.columns.len() - i,
        {
            cols.push(self.columns[i].clone());
            i = i + 1;
        }
        assert(string_views(cols@) =~= string_views(self.columns@));
        Index { name: self.name.clone(), table: self.table.clone(), columns: cols }
    }
}


/// Why a schema change could not be applied.
#[derive(Clone, Copy, Debug, PartialEq, Eq, Structural)]
pub enum SchemaError {
    /// The change names a table that does not exist.
    MissingTable,
    /// An index names a column that its table lacks.
    MissingColumn,
    /// A column name would occur twice in one table.
    DuplicateColumn,
    /// An added NOT NULL column has no default for the rows already there.
    NotNullWithoutDefault,
    /// An added column's default is not a constant.
    NonConstantDefault,
    /// A primary key column cannot be added to an existing table.
    PrimaryKeyColumn,
}

/// One forward step of a schema.
#[derive(Debug)]
pub enum SchemaChange {
    /// Create the table unless one of that name exists.
    CreateTable(Table),
    /// Add a column to an existing table.
    AddColumn { table: String, column: Column },
    /// Create the index unless one of that name exists.
    CreateIndex(Index),
}

pub enum ChangeView {
    CreateTable(TableView),
    AddColumn { table: Seq<char>, column: ColumnView },
    CreateIndex(IndexView),
}

impl View for SchemaChange {
    type V = ChangeView;

    open spec fn view(&self) -> ChangeView {
        match self {
            SchemaChange::CreateTable(t) => ChangeView::CreateTable(t@),
            SchemaChange::AddColumn { table, column } => ChangeView::AddColumn {
                table: table@,
                column: column@,
            },
            SchemaChange::CreateIndex(ix) => ChangeView::CreateIndex(ix@),
        }
    }
}

pub open spec fn change_views(cs: Seq<SchemaChange>) -> Seq<ChangeView> {
    cs.map_values(|c: SchemaChange| c@)
}

/// The tables and indexes of a store.
#[derive(Debug)]
pub struct Schema {
    pub tables: Vec<Table>,
    pub indexes: Vec<Index>,
}

pub struct SchemaView {
    pub tables: Seq<TableView>,
    pub indexes: Seq<IndexView>,
}

impl View for Schema {
    type V = SchemaView;

    open spec fn view(&self) -> SchemaView {
        SchemaView {
            tables: self.tables@.map_values(|t: Table| t@),
            indexes: self.indexes@.map_values(|ix: Index| ix@),
        }
    }
}

pub open spec fn has_table(ts: Seq<TableView>, name: Seq<char>) -> bool {
    exists|i: int| 0 <= i < ts.len() && ts[i].name == name
}

/// Position of the table called `name` (meaningful when `has_table` holds).
pub open spec fn table_at(ts: Seq<TableView>, name: Seq<char>) -> int {
    choose|i: int| 0 <= i < ts.len() && ts[i].name == name
}

pub open spec fn has_column(cs: Seq<ColumnView>, name: Seq<char>) -> bool {
    exists|j: int| 0 <= j < cs.len() && cs[j].name == name
}

pub open spec fn has_index(ixs: Seq<IndexView>, name: Seq<char>) -> bool {
    exists|k: int| 0 <= k < ixs.len() && ixs[k].name == name
}

pub open spec fn columns_distinct(cs: Seq<ColumnView>) -> bool {
    forall|a: int, b: int| 0 <= a < b < cs.len() ==> cs[a].name != cs[b].name
}

pub open spec fn all_columns_exist(cs: Seq<ColumnView>, names: Seq<Seq<char>>) -> bool {
    forall|k: int| 0 <= k < names.len() ==> has_column(cs, #[trigger] names[k])
}

impl SchemaView {
    /// Table names are unique, index names are unique, and no table repeats
    /// a column name.
    pub open spec fn wf(self) -> bool {
        &&& forall|a: int, b: int|
            0 <= a < b < self.tables.len() ==> self.tables[a].name != self.tables[b].name
        &&& forall|a: int, b: int|
            0 <= a < b < self.indexes.len() ==> self.indexes[a].name != self.indexes[b].name
        &&& forall|a: int| 0 <= a < self.tables.len() ==> columns_distinct(#[trigger] self.tables[a].columns)
    }

    pub open spec fn empty() -> SchemaView {
        SchemaView { tables: Seq::empty(), indexes: Seq::empty() }
    }
}

/// What applying one change to a schema gives: the new schema, or the reason
/// the change is refused.
pub open spec fn change_outcome(s: SchemaView, c: ChangeView) -> Result<SchemaView, SchemaError> {
    match c {
        ChangeView::CreateTable(t) => {
            if has_table(s.tables, t.name) {
                Ok(s)
            } else if !columns_distinct(t.columns) {
                Err(SchemaError::DuplicateColumn)
            } else {
                Ok(SchemaView { tables: s.tables.push(t), indexes: s.indexes })
            }
        },
        ChangeView::AddColumn { table, column } => {
            if !has_table(s.tables, table) {
                Err(SchemaError::MissingTable)
            } else {
                let i = table_at(s.tables, table);
                let t = s.tables[i];
                if has_column(t.columns, column.name) {
                    Err(SchemaError::DuplicateColumn)
                } else if column.primary_key {
                    Err(SchemaError::PrimaryKeyColumn)
                } else if column.default is Some && column.default->Some_0 is CurrentTimestamp {
                    Err(SchemaError::NonConstantDefault)
                } else if column.not_null && column.default is None {
                    Err(SchemaError::NotNullWithoutDefault)
                } else {
                    Ok(
                        SchemaView {
                            tables: s.tables.update(
                                i,
                                TableView { name: t.name, columns: t.columns.push(column) },
                            ),
                            indexes: s.indexes,
                        },
                    )
                }
            }
        },
        ChangeView::CreateIndex(ix) => {
            if has_index(s.indexes, ix.name) {
                Ok(s)
            } else if !has_table(s.tables, ix.table) {
                Err(SchemaError::MissingTable)
            } else if !all_columns_exist(s.tables[table_at(s.tables, ix.table)].columns, ix.columns) {
                Err(SchemaError::MissingColumn)
            } else {
                Ok(SchemaView { tables: s.tables, indexes: s.indexes.push(ix) })
            }
        },
    }
}

/// Applying a sequence of changes in order, stopping at the first refusal,
/// which is reported with its position in the sequence.
pub open spec fn changes_outcome(s: SchemaView, cs: Seq<ChangeView>) -> Result<SchemaView, (int, SchemaError)>
    decreases cs.len(),
{
    if cs.len() == 0 {
        Ok(s)
    } else {
        match change_outcome(s, cs[0]) {
            Ok(s1) => shift_failure(changes_outcome(s1, cs.drop_first()), 1),
            Err(e) => Err((0, e)),
        }
    }
}

pub open spec fn shift_failure(r: Result<SchemaView, (int, SchemaError)>, by: int) -> Result<SchemaView, (int, SchemaError)> {
    match r {
        Ok(s) => Ok(s),
        Err((k, e)) => Err((k + by, e)),
    }
}

/// The table a change is about.
pub open spec fn change_table(c: ChangeView) -> Seq<char> {
    match c {
        ChangeView::CreateTable(t) => t.name,
        ChangeView::AddColumn { table, .. } => table,
        ChangeView::CreateIndex(ix) => ix.table,
    }
}

impl SchemaChange {
    /// Name of the table the change is about.
    pub fn table_name(&self) -> (r: &String)
        ensures
            r@ == change_table(self@),
    {
        match self {
            SchemaChange::CreateTable(t) => &t.name,
            SchemaChange::AddColumn { table, .. } => table,
            SchemaChange::CreateIndex(ix) => &ix.table,
        }
    }
}

fn position_of_column(cs: &Vec<Column>, name: &String) -> (r: Option<usize>)
    ensures
        match r {
            Some(j) => j < cs.len() && cs@[j as int].name@ == name@ && has_column(
                column_views(cs@),
                name@,
            ),
            None => !has_column(column_views(cs@), name@),
        },
{
    let mut j: usize = 0;
    while j < cs.len()
        invariant
            j <= cs.len(),
            forall|k: int| 0 <= k < j ==> cs@[k].name@ != name@,
        decreases cs.len() - j,
    {
        if cs[j].name == *name {
            assert(column_views(cs@)[j as int].name == name@);
            return Some(j);
        }
        j = j + 1;
    }
    proof {
        if has_column(column_views(cs@), name@) {
            let k = choose|k: int| 0 <= k < cs.len() && column_views(cs@)[k].name == name@;
            assert(cs@[k].name@ == name@);
        }
    }
    None
}

fn columns_are_distinct(cs: &Vec<Column>) -> (r: bool)
    ensures
        r == columns_distinct(column_views(cs@)),
{
    let mut b: usize = 0;
    while b < cs.len()
        invariant
            b <= cs.len(),
            forall|x: int, y: int| 0 <= x < y < b ==> cs@[x].name@ != cs@[y].name@,
        decreases cs.len() - b,
    {
        let mut a: usize = 0;
        while a < b
            invariant
                a <= b < cs.len(),
                forall|x: int, y: int| 0 <= x < y < b ==> cs@[x].name@ != cs@[y].name@,
                forall|x: int| 0 <= x < a ==> cs@[x].name@ != cs@[b as int].name@,
            decreases b - a,
        {
            if cs[a].name == cs[b].name {
                proof {
                    let v = column_views(cs@);
                    assert(v[a as int].name == v[b as int].name);
                }
                return false;
            }
            a = a + 1;
        }
        b = b + 1;
    }
    proof {
        let v = column_views(cs@);
        assert forall|x: int, y: int| 0 <= x < y < v.len() implies v[x].name != v[y].name by {
            assert(cs@[x].name@ != cs@[y].name@);
        }
    }
    true
}

impl Schema {
    /// A schema with no tables and no indexes.
    pub fn new() -> (r: Schema)
        ensures
            r@ == SchemaView::empty(),
            r@.wf(),
    {
        let r = Schema { tables: Vec::new(), indexes: Vec::new() };
        assert(r@.tables =~= Seq::<TableView>::empty());
        assert(r@.indexes =~= Seq::<IndexView>::empty());
        r
    }

    /// An independent copy with the same tables and indexes.
    pub fn copy(&self) -> (r: Schema)
        ensures
            r@ == self@,
    {
        let mut tables: Vec<Table> = Vec::new();
        let mut i: usize = 0;
        while i < self.tables.len()
            invariant
                i <= self.tables.len(),
                tables.len() == i,
                forall|j: int| 0 <= j < i ==> (#[trigger] tables@[j])@ == self.tables@[j]@,
            decreases self.tables.len() - i,
        {
            tables.push(self.tables[i].copy());
            i = i + 1;
        }
        let mut indexes: Vec<Index> = Vec::new();
        let mut k: usize = 0;
        while k < self.indexes.len()
            invariant
                k <= self.indexes.len(),
                indexes.len() == k,
                forall|j: int| 0 <= j < k ==> (#[trigger] indexes@[j])@ == self.indexes@[j]@,
            decreases self.indexes.len() - k,
        {
            indexes.push(self.indexes[k].copy());
            k = k + 1;
        }
        let r = Schema { tables, indexes };
        assert(r@.tables =~= self@.tables);
        assert(r@.indexes =~= self@.indexes);
        r
    }

    /// Applies `cs` in order to a copy of this schema: the copy with every
    /// change made, or the first refusal. This schema is never touched, so a
    /// refused unit leaves nothing half done.
    pub fn with_changes(&self, cs: &Vec<SchemaChange>) -> (r: Result<Schema, (usize, SchemaError)>)
        requires
            self@.wf(),
        ensures
            match changes_outcome(self@, change_views(cs@)) {
                Ok(s) => r is Ok && r->Ok_0@ == s && s.wf(),
                Err((k, e)) => r is Err && r->Err_0.0 as int == k && r->Err_0.0 < cs.len()
                    && r->Err_0.1 == e,
            },
    {
        let ghost all = change_views(cs@);
        let mut work = self.copy();
        let mut i: usize = 0;
        assert(all.skip(0) =~= all);
        assert(shift_failure(changes_outcome(self@, all), 0) == changes_outcome(self@, all));
        while i < cs.len()
            invariant
                i <= cs.len(),
                work@.wf(),
                all == change_views(cs@),
                changes_outcome(self@, all) == shift_failure(
                    changes_outcome(work@, all.skip(i as int)),
                    i as int,
                ),
            decreases cs.len() - i,
        {
            let res = work.apply_change(&cs[i]);
            assert(all.skip(i as int)[0] == cs@[i as int]@);
            assert(all.skip(i as int).drop_first() =~= all.skip(i as int + 1));
            match res {
                Ok(()) => {
                    let ghost x = changes_outcome(work@, all.skip(i as int + 1));
                    assert(shift_failure(shift_failure(x, 1), i as int) == shift_failure(
                        x,
                        i as int + 1,
                    ));
                },
                Err(e) => {
                    return Err((i, e));
                },
            }
            i = i + 1;
        }
        assert(all.skip(i as int) =~= Seq::<ChangeView>::empty());
        Ok(work)
    }

    /// Position of the table called `name`.
    pub fn find_table(&self, name: &String) -> (r: Option<usize>)
        requires
            self@.wf(),
        ensures
            match r {
                Some(i) => i < self.tables.len() && has_table(self@.tables, name@) && i as int
                    == table_at(self@.tables, name@),
                None => !has_table(self@.tables, name@),
            },
    {
        let mut i: usize = 0;
        while i < self.tables.len()
            invariant
                i <= self.tables.len(),
                self@.wf(),
                forall|k: int| 0 <= k < i ==> self.tables@[k].name@ != name@,
            decreases self.tables.len() - i,
        {
            if self.tables[i].name == *name {
                proof {
                    let ts = self@.tables;
                    assert(ts[i as int].name == name@);
                    assert(has_table(ts, name@));
                    let j = table_at(ts, name@);
                    if j != i as int {
                        if j < i as int {
                            assert(ts[j].name != ts[i as int].name);
                        } else {
                            assert(ts[i as int].name != ts[j].name);
                        }
                    }
                }
                return Some(i);
            }
            i = i + 1;
        }
        proof {
            if has_table(self@.tables, name@) {
                let k = choose|k: int| 0 <= k < self@.tables.len() && self@.tables[k].name == name@;
                assert(self.tables@[k].name@ == name@);
            }
        }
        None
    }

    /// The column called `column` of the table called `table`, if both exist.
    pub fn find_column(&self, table: &String, column: &String) -> (r: Option<&Column>)
        requires
            self@.wf(),
        ensures
            match r {
                Some(c) => has_table(self@.tables, table@) && c.name@ == column@ && has_column(
                    self@.tables[table_at(self@.tables, table@)].columns,
                    column@,
                ) && exists|j: int|
                    0 <= j < self@.tables[table_at(self@.tables, table@)].columns.len()
                        && self@.tables[table_at(self@.tables, table@)].columns[j] == c@,
                None => !has_table(self@.tables, table@) || !has_column(
                    self@.tables[table_at(self@.tables, table@)].columns,
                    column@,
                ),
            },
    {
        match self.find_table(table) {
            None => None,
            Some(i) => {
                assert(self@.tables[i as int].columns == column_views(self.tables@[i as int].columns@));
                match position_of_column(&self.tables[i].columns, column) {
                    None => None,
                    Some(j) => {
                        assert(self@.tables[i as int].columns[j as int] == self.tables@[i as int].columns@[j as int]@);
                        Some(&self.tables[i].columns[j])
                    },
                }
            },
        }
    }

    /// Whether an index called `name` exists.
    pub fn index_exists(&self, name: &String) -> (r: bool)
        ensures
            r == has_index(self@.indexes, name@),
    {
        let mut k: usize = 0;
        while k < self.indexes.len()
            invariant
                k <= self.indexes.len(),
                forall|x: int| 0 <= x < k ==> self.indexes@[x].name@ != name@,
            decreases self.indexes.len() - k,
        {
            if self.indexes[k].name == *name {
                assert(self@.indexes[k as int].name == name@);
                return true;
            }
            k = k + 1;
        }
        proof {
            if has_index(self@.indexes, name@) {
                let x = choose|x: int| 0 <= x < self@.indexes.len() && self@.indexes[x].name == name@;
                assert(self.indexes@[x].name@ == name@);
            }
        }
        false
    }

    /// Applies one change. On refusal the schema is left as it was.
    pub fn apply_change(&mut self, c: &SchemaChange) -> (r: Result<(), SchemaError>)
        requires
            old(self)@.wf(),
        ensures
            final(self)@.wf(),
            match change_outcome(old(self)@, c@) {
                Ok(s) => r is Ok && final(self)@ == s,
                Err(e) => r == Err::<(), SchemaError>(e) && final(self)@ == old(self)@,
            },
    {
        match c {
            SchemaChange::CreateTable(t) => {
                match self.find_table(&t.name) {
                    Some(_) => Ok(()),
                    None => {
                        if !columns_are_distinct(&t.columns) {
                            return Err(SchemaError::DuplicateColumn);
                        }
                        let ghost before = self@;
                        self.tables.push(t.copy());
                        assert(self@.tables =~= before.tables.push(t@));
                        Ok(())
                    },
                }
            },
            SchemaChange::AddColumn { table, column } => {
                match self.find_table(table) {
                    None => Err(SchemaError::MissingTable),
                    Some(i) => {
                        assert(self@.tables[i as int].columns == column_views(self.tables@[i as int].columns@));
                        if position_of_column(&self.tables[i].columns, &column.name).is_some() {
                            return Err(SchemaError::DuplicateColumn);
                        }
                        if column.primary_key {
                            return Err(SchemaError::PrimaryKeyColumn);
                        }
                        match &column.default {
                            Some(DefaultValue::CurrentTimestamp) => {
                                return Err(SchemaError::NonConstantDefault);
                            },
                            Some(_) => {},
                            None => {
                                if column.not_null {
                                    return Err(SchemaError::NotNullWithoutDefault);
                                }
                            },
                        }
                        let ghost before = self@;
                        let mut t = self.tables[i].copy();
                        t.columns.push(column.copy());
                        assert(t@.columns =~= before.tables[i as int].columns.push(column@));
                        self.tables.set(i, t);
                        assert(self@.tables =~= before.tables.update(
                            i as int,
                            TableView {
                                name: before.tables[i as int].name,
                                columns: before.tables[i as int].columns.push(column@),
                            },
                        ));
                        Ok(())
                    },
                }
            },
            SchemaChange::CreateIndex(ix) => {
                if self.index_exists(&ix.name) {
                    return Ok(());
                }
                match self.find_table(&ix.table) {
                    None => Err(SchemaError::MissingTable),
                    Some(i) => {
                        let mut k: usize = 0;
                        while k < ix.columns.len()
                            invariant
                                k <= ix.columns.len(),
                                i < self.tables.len(),
                                self@ == old(self)@,
                                self@.wf(),
                                c@ == ChangeView::CreateIndex(ix@),
                                !has_index(self@.indexes, ix@.name),
                                has_table(self@.tables, ix@.table),
                                i as int == table_at(self@.tables, ix@.table),
                                self@.tables[i as int].columns == column_views(self.tables@[i as int].columns@),
                                forall|x: int|
                                    0 <= x < k ==> has_column(
                                        self@.tables[i as int].columns,
                                        #[trigger] ix@.columns[x],
                                    ),
                            decreases ix.columns.len() - k,
                        {
                            if position_of_column(&self.tables[i].columns, &ix.columns[k]).is_none() {
                                assert(ix@.columns[k as int] == ix.columns@[k as int]@);
                                assert(!has_column(self@.tables[i as int].columns, ix@.columns[k as int]));
                                return Err(SchemaError::MissingColumn);
                            }
                            assert(ix@.columns[k as int] == ix.columns@[k as int]@);
                            k = k + 1;
                        }
                        let ghost before = self@;
                        self.indexes.push(ix.copy());
                        assert(self@.indexes =~= before.indexes.push(ix@));
                        Ok(())
                    },
                }
            },
        }
    }
}

} // verus!
