//! The schema of a user database as its host describes it to
//! participants: the database id, each table recorded in COOP_DATA_TABLES
//! with its logical storage policy, and the columns of each table as the
//! table's schema read lists them.
use vstd::prelude::*;

use crate::cdata::{ColumnSchema, DatabaseSchema, TableSchema};
use crate::dbi::DbiConfigSqlite;
use crate::rcd_enum::{column_type_of, spec_lowercase, ColumnType, LogicalStoragePolicy};
use crate::sql_text::SCHEMA_OF_TABLE;
use crate::guid::new_guid_text;
use crate::statement::{plain_statement, stmt, DbStatement, DbStep};
use crate::table::{declared_length, length_of_declared_type, Row as TableRow, Table, Value};
use crate::text::{parse_u32, replace, spec_replace, text_eq, u32_text_value};

verus! {

/// The statement that reads the id of a user database.
pub const DATABASE_ID: &'static str = "SELECT DATABASE_ID FROM COOP_DATA_HOST";

/// The statement that reads the id and name of each table recorded for a
/// user database.
pub const DATA_TABLES: &'static str = "SELECT TABLE_ID, TABLE_NAME FROM COOP_DATA_TABLES";

/// The statement that reads the id of the user database `db_name`.
pub fn database_id_statement(db_name: &str, config: &DbiConfigSqlite) -> (r: DbStatement)
    ensures
        r@ == stmt(config.root_folder@, db_name@, DATABASE_ID@, Seq::empty()),
{
    plain_statement(config.root_folder.as_str(), db_name, DATABASE_ID)
}

/// The statement that reads the id and name of each table recorded for the
/// user database `db_name`.
pub fn data_tables_statement(db_name: &str, config: &DbiConfigSqlite) -> (r: DbStatement)
    ensures
        r@ == stmt(config.root_folder@, db_name@, DATA_TABLES@, Seq::empty()),
{
    plain_statement(config.root_folder.as_str(), db_name, DATA_TABLES)
}

/// The statement that reads the schema of the table `table_name` of the
/// user database `db_name`.
pub fn schema_of_table_statement(db_name: &str, table_name: &str, config: &DbiConfigSqlite) -> (r:
    DbStatement)
    ensures
        r@ == stmt(
            config.root_folder@,
            db_name@,
            spec_replace(SCHEMA_OF_TABLE@, ":table_name"@, table_name@),
            Seq::empty(),
        ),
{
    proof {
        reveal_strlit(":table_name");
    }
    let cmd = replace(SCHEMA_OF_TABLE, ":table_name", table_name);
    plain_statement(config.root_folder.as_str(), db_name, cmd.as_str())
}

/// The flag a text reads as, as `str::parse::<bool>` reads it: exactly
/// "true" or "false".
pub open spec fn bool_text_value(s: Seq<char>) -> Option<bool> {
    if s == "true"@ {
        Some(true)
    } else if s == "false"@ {
        Some(false)
    } else {
        None
    }
}

/// Reads a text as a flag, as `str::parse::<bool>` does.
pub fn parse_bool(s: &str) -> (r: Option<bool>)
    ensures
        r == bool_text_value(s@),
{
    if text_eq(s, "true") {
        Some(true)
    } else if text_eq(s, "false") {
        Some(false)
    } else {
        None
    }
}

/// The mathematical value of a column schema.
pub struct ColumnSchemaView {
    pub column_name: Seq<char>,
    pub column_type: u32,
    pub column_length: u32,
    pub is_nullable: bool,
    pub ordinal: u32,
    pub table_id: Seq<char>,
    pub column_id: Seq<char>,
    pub is_primary_key: bool,
}

/// The value of a column schema.
pub open spec fn column_view(c: ColumnSchema) -> ColumnSchemaView {
    ColumnSchemaView {
        column_name: c.column_name@,
        column_type: c.column_type,
        column_length: c.column_length,
        is_nullable: c.is_nullable,
        ordinal: c.ordinal,
        table_id: c.table_id@,
        column_id: c.column_id@,
        is_primary_key: c.is_primary_key,
    }
}

/// The column schema a schema row starts from: everything empty or zero
/// but the table id.
pub open spec fn blank_column(table_id: Seq<char>) -> ColumnSchemaView {
    ColumnSchemaView {
        column_name: Seq::empty(),
        column_type: 0,
        column_length: 0,
        is_nullable: false,
        ordinal: 0,
        table_id,
        column_id: Seq::empty(),
        is_primary_key: false,
    }
}

/// The text of a value that holds data.
pub open spec fn text_of(v: Value) -> Seq<char> {
    v.data->0.data_string@
}

/// The column schema after taking in one value of a schema row, or none if
/// the value cannot be taken in. By the value's column: `columnId` gives
/// the ordinal (a number), `name` the name, `type` the column type's code
/// and its declared length (a declared type that names a column type and
/// whose length reads as a number, see `table::declared_length`), `NotNull` whether the column is
/// nullable and `IsPK` whether it is a primary key (flags). The values of
/// these columns must hold data; values of other columns are passed over.
pub open spec fn take_value(c: ColumnSchemaView, v: Value) -> Option<ColumnSchemaView> {
    let name = v.col.name@;
    let t = text_of(v);
    if name == "columnId"@ {
        if v.data is Some && u32_text_value(t) is Some {
            Some(ColumnSchemaView { ordinal: u32_text_value(t)->0, ..c })
        } else {
            None
        }
    } else if name == "name"@ {
        if v.data is Some {
            Some(ColumnSchemaView { column_name: t, ..c })
        } else {
            None
        }
    } else if name == "type"@ {
        if v.data is Some && column_type_of(spec_lowercase(t)) is Some && declared_length(t) is Some {
            Some(
                ColumnSchemaView {
                    column_type: column_type_of(spec_lowercase(t))->0.code() as u32,
                    column_length: declared_length(t)->0,
                    ..c
                },
            )
        } else {
            None
        }
    } else if name == "NotNull"@ {
        if v.data is Some && bool_text_value(t) is Some {
            Some(ColumnSchemaView { is_nullable: bool_text_value(t)->0, ..c })
        } else {
            None
        }
    } else if name == "IsPK"@ {
        if v.data is Some && bool_text_value(t) is Some {
            Some(ColumnSchemaView { is_primary_key: bool_text_value(t)->0, ..c })
        } else {
            None
        }
    } else {
        Some(c)
    }
}

/// The column schema described by the values of a schema row, taken in
/// one after another from the blank column of table `table_id`.
pub open spec fn column_of_values(vals: Seq<Value>, table_id: Seq<char>) -> Option<ColumnSchemaView>
    decreases vals.len(),
{
    if vals.len() == 0 {
        Some(blank_column(table_id))
    } else {
        match column_of_values(vals.drop_last(), table_id) {
            Some(c) => take_value(c, vals.last()),
            None => None,
        }
    }
}

fn take_value_exec(c: &mut ColumnSchema, v: &Value) -> (ok: bool)
    ensures
        ok <==> take_value(column_view(*old(c)), *v) is Some,
        ok ==> take_value(column_view(*old(c)), *v) == Some(column_view(*final(c))),
{
    proof {
        reveal_strlit("columnId");
        reveal_strlit("name");
        reveal_strlit("type");
        reveal_strlit("NotNull");
        reveal_strlit("IsPK");
        assert("columnId"@.len() == 8);
        assert("name"@.len() == 4);
        assert("type"@.len() == 4);
        assert("NotNull"@.len() == 7);
        assert("IsPK"@.len() == 4);
        assert("name"@[0] != "type"@[0]);
    }
    let name = v.col.name.as_str();
    let is_ord = text_eq(name, "columnId");
    let is_name = text_eq(name, "name");
    let is_type = text_eq(name, "type");
    let is_nn = text_eq(name, "NotNull");
    let is_pk = text_eq(name, "IsPK");
    if !(is_ord || is_name || is_type || is_nn || is_pk) {
        return true;
    }
    let d = match &v.data {
        Some(d) => d,
        None => {
            return false;
        },
    };
    let t = d.data_string.as_str();
    if is_ord {
        match parse_u32(t) {
            Some(n) => {
                c.ordinal = n;
                true
            },
            None => false,
        }
    } else if is_name {
        c.column_name = d.data_string.clone();
        true
    } else if is_type {
        let length = match length_of_declared_type(t) {
            Some(n) => n,
            None => {
                return false;
            },
        };
        match ColumnType::try_parse(t) {
            Some(ct) => {
                c.column_type = ColumnType::to_u32(ct);
                c.column_length = length;
                true
            },
            None => false,
        }
    } else if is_nn {
        match parse_bool(t) {
            Some(b) => {
                c.is_nullable = b;
                true
            },
            None => false,
        }
    } else {
        match parse_bool(t) {
            Some(b) => {
                c.is_primary_key = b;
                true
            },
            None => false,
        }
    }
}

/// The column schema described by a row of a table's schema read, for the
/// table `table_id` (see `column_of_values`); none where a value cannot be
/// taken in (the read stops there).
pub fn column_schema_of_row(row: &TableRow, table_id: &str) -> (r: Option<ColumnSchema>)
    ensures
        r is Some <==> column_of_values(row.vals@, table_id@) is Some,
        r matches Some(c) ==> column_of_values(row.vals@, table_id@) == Some(column_view(c)),
{
    let mut c = ColumnSchema {
        column_name: String::new(),
        column_type: 0,
        column_length: 0,
        is_nullable: false,
        ordinal: 0,
        table_id: String::from_str(table_id),
        column_id: String::new(),
        is_primary_key: false,
    };
    let mut k: usize = 0;
    assert(row.vals@.subrange(0, 0) =~= Seq::<Value>::empty());
    while k < row.vals.len()
        invariant
            k <= row.vals@.len(),
            column_of_values(row.vals@.subrange(0, k as int), table_id@) == Some(column_view(c)),
        decreases row.vals.len() - k,
    {
        let ghost pre = row.vals@.subrange(0, k as int);
        let ghost post = row.vals@.subrange(0, k + 1);
        assert(post.drop_last() =~= pre);
        let ok = take_value_exec(&mut c, &row.vals[k]);
        if !ok {
            proof {
                lemma_column_of_values_stops(row.vals@, table_id@, k as int + 1);
            }
            return None;
        }
        k = k + 1;
    }
    assert(row.vals@.subrange(0, row.vals@.len() as int) =~= row.vals@);
    Some(c)
}

proof fn lemma_column_of_values_stops(vals: Seq<Value>, table_id: Seq<char>, k: int)
    requires
        0 <= k <= vals.len(),
        column_of_values(vals.subrange(0, k), table_id) is None,
    ensures
        column_of_values(vals, table_id) is None,
    decreases vals.len() - k,
{
    if k < vals.len() {
        let a = vals.subrange(0, k);
        let b = vals.subrange(0, k + 1);
        assert(b.drop_last() =~= a);
        lemma_column_of_values_stops(vals, table_id, k + 1);
    } else {
        assert(vals.subrange(0, k) =~= vals);
    }
}

/// The columns described by the rows of a table's schema read, in order,
/// for the table `table_id`; none if a row describes none.
pub open spec fn columns_of_rows(rows: Seq<TableRow>, table_id: Seq<char>) -> Option<Seq<ColumnSchemaView>>
    decreases rows.len(),
{
    if rows.len() == 0 {
        Some(Seq::empty())
    } else {
        match (columns_of_rows(rows.drop_last(), table_id), column_of_values(rows.last().vals@, table_id)) {
            (Some(cs), Some(c)) => Some(cs.push(c)),
            _ => None,
        }
    }
}

/// The values of a sequence of column schemas.
pub open spec fn column_views(cs: Seq<ColumnSchema>) -> Seq<ColumnSchemaView> {
    cs.map_values(|c: ColumnSchema| column_view(c))
}

proof fn lemma_columns_stop(rows: Seq<TableRow>, table_id: Seq<char>, k: int)
    requires
        0 <= k <= rows.len(),
        columns_of_rows(rows.subrange(0, k), table_id) is None,
    ensures
        columns_of_rows(rows, table_id) is None,
    decreases rows.len() - k,
{
    if k < rows.len() {
        let a = rows.subrange(0, k);
        let b = rows.subrange(0, k + 1);
        assert(b.drop_last() =~= a);
        lemma_columns_stop(rows, table_id, k + 1);
    } else {
        assert(rows.subrange(0, k) =~= rows);
    }
}

/// The columns described by a table's schema read (see
/// `columns_of_rows`).
pub fn columns_of_schema(schema: &Table, table_id: &str) -> (r: Option<Vec<ColumnSchema>>)
    ensures
        r is Some <==> columns_of_rows(schema.rows@, table_id@) is Some,
        r matches Some(cs) ==> columns_of_rows(schema.rows@, table_id@) == Some(column_views(cs@)),
{
    let mut out: Vec<ColumnSchema> = Vec::new();
    let mut i: usize = 0;
    assert(schema.rows@.subrange(0, 0) =~= Seq::<TableRow>::empty());
    assert(column_views(out@) =~= Seq::<ColumnSchemaView>::empty());
    while i < schema.rows.len()
        invariant
            i <= schema.rows@.len(),
            columns_of_rows(schema.rows@.subrange(0, i as int), table_id@) == Some(column_views(out@)),
        decreases schema.rows.len() - i,
    {
        let ghost pre = schema.rows@.subrange(0, i as int);
        let ghost post = schema.rows@.subrange(0, i + 1);
        assert(post.drop_last() =~= pre);
        assert(post.last() == schema.rows@[i as int]);
        match column_schema_of_row(&schema.rows[i], table_id) {
            Some(c) => {
                let ghost before = out@;
                out.push(c);
                assert(column_views(out@) =~= column_views(before).push(column_view(c)));
            },
            None => {
                proof {
                    lemma_columns_stop(schema.rows@, table_id@, i as int + 1);
                }
                return None;
            },
        }
        i = i + 1;
    }
    assert(schema.rows@.subrange(0, schema.rows@.len() as int) =~= schema.rows@);
    Some(out)
}

/// `t` is the schema of table `x` of the database: its name and id from
/// `tables[x]` (id, then name), the database's id and name, the code of its
/// policy `policies[x]`, and the columns its schema read `schemas[x]`
/// describes.
pub open spec fn is_table_schema(
    t: TableSchema,
    db_name: Seq<char>,
    db_id: Seq<char>,
    tables: Seq<(String, String)>,
    policies: Seq<LogicalStoragePolicy>,
    schemas: Seq<Table>,
    x: int,
) -> bool {
    &&& t.table_name@ == tables[x].1@
    &&& t.table_id@ == tables[x].0@
    &&& t.database_id@ == db_id
    &&& t.database_name@ == db_name
    &&& t.logical_storage_policy == policies[x].code()
    &&& columns_of_rows(schemas[x].rows@, tables[x].0@) == Some(column_views(t.columns@))
}

/// Every table's schema read describes its columns.
pub open spec fn all_schemas_readable(tables: Seq<(String, String)>, schemas: Seq<Table>) -> bool {
    forall|x: int| 0 <= x < tables.len() ==> (#[trigger] columns_of_rows(schemas[x].rows@, tables[x].0@)) is Some
}

/// The schema of the user database `db_name`, with id `db_id`: one table
/// schema for each table recorded for it (`tables`, id and name), with the
/// table's policy (`policies`) and its columns as its schema read
/// (`schemas`) describes them (see `is_table_schema`); none where a schema
/// read cannot be taken in (the read stops there).
pub fn get_db_schema(
    db_name: &str,
    db_id: &str,
    tables: &Vec<(String, String)>,
    policies: &Vec<LogicalStoragePolicy>,
    schemas: &Vec<Table>,
) -> (r: Option<DatabaseSchema>)
    requires
        policies@.len() == tables@.len(),
        schemas@.len() == tables@.len(),
    ensures
        r is Some <==> all_schemas_readable(tables@, schemas@),
        r matches Some(s) ==> {
            &&& s.database_name@ == db_name@
            &&& s.database_id@ == db_id@
            &&& s.tables@.len() == tables@.len()
            &&& forall|x: int|
                0 <= x < tables@.len() ==> is_table_schema(
                    #[trigger] s.tables@[x],
                    db_name@,
                    db_id@,
                    tables@,
                    policies@,
                    schemas@,
                    x,
                )
        },
{
    let mut out: Vec<TableSchema> = Vec::new();
    let mut x: usize = 0;
    while x < tables.len()
        invariant
            policies@.len() == tables@.len(),
            schemas@.len() == tables@.len(),
            x <= tables@.len(),
            out@.len() == x,
            forall|y: int| 0 <= y < x ==> (#[trigger] columns_of_rows(schemas@[y].rows@, tables@[y].0@)) is Some,
            forall|y: int|
                0 <= y < x ==> is_table_schema(
                    #[trigger] out@[y],
                    db_name@,
                    db_id@,
                    tables@,
                    policies@,
                    schemas@,
                    y,
                ),
        decreases tables.len() - x,
    {
        let columns = match columns_of_schema(&schemas[x], tables[x].0.as_str()) {
            Some(cs) => cs,
            None => {
                assert(columns_of_rows(schemas@[x as int].rows@, tables@[x as int].0@) is None);
                return None;
            },
        };
        let t = TableSchema {
            table_name: tables[x].1.clone(),
            table_id: tables[x].0.clone(),
            database_name: String::from_str(db_name),
            database_id: String::from_str(db_id),
            columns,
            logical_storage_policy: LogicalStoragePolicy::to_u32(policies[x]),
        };
        out.push(t);
        x = x + 1;
    }
    Some(
        DatabaseSchema {
            database_name: String::from_str(db_name),
            database_id: String::from_str(db_id),
            tables: out,
        },
    )
}

/// The statement that counts the recorded columns with a name.
pub const COLUMN_COUNT_BY_NAME: &'static str = "SELECT 
                    COUNT(*) COUNT
                FROM 
                    COOP_DATA_HOST_TABLE_COLUMNS
                WHERE
                    COLUMN_NAME = ':col_name'
            ;";

/// The statement that records a column of a table.
pub const ADD_HOST_COLUMN: &'static str = "
                    INSERT INTO COOP_DATA_HOST_TABLE_COLUMNS
                    (
                        TABLE_ID,
                        COLUMN_ID,
                        COLUMN_NAME
                    )
                    VALUES
                    (
                        ':table_id',
                        ':col_id',
                        ':col_name'
                    )
                ;";

/// Every row of a schema read has a second value, and where that value is
/// of the column `name` it holds data.
pub open spec fn schema_rows_readable(rows: Seq<TableRow>) -> bool {
    forall|i: int|
        0 <= i < rows.len() ==> (#[trigger] rows[i]).vals@.len() >= 2 && (rows[i].vals@[1].col.name@
            == "name"@ ==> rows[i].vals@[1].data is Some)
}

/// The column names that a schema read lists: the second value of each
/// row whose second value is of the column `name`, in order.
pub open spec fn schema_column_names(rows: Seq<TableRow>) -> Seq<Seq<char>>
    decreases rows.len(),
{
    if rows.len() == 0 {
        Seq::empty()
    } else {
        let v = rows.last().vals@[1];
        schema_column_names(rows.drop_last()) + if v.col.name@ == "name"@ {
            seq![text_of(v)]
        } else {
            Seq::empty()
        }
    }
}

/// The statement text that counts the recorded columns named `name`.
pub open spec fn column_count_sql(name: Seq<char>) -> Seq<char> {
    spec_replace(COLUMN_COUNT_BY_NAME@, ":col_name"@, name)
}

/// The statement text that records the column `name` of table `table_id`
/// under the column id `col_id`.
pub open spec fn add_column_sql(table_id: Seq<char>, col_id: Seq<char>, name: Seq<char>) -> Seq<char> {
    spec_replace(
        spec_replace(spec_replace(ADD_HOST_COLUMN@, ":table_id"@, table_id), ":col_id"@, col_id),
        ":col_name"@,
        name,
    )
}

/// The steps of recording the columns `names` of table `table_id` in the
/// user database `db` (in the folder `folder`): for each name in order,
/// count the recorded columns of that name, and record it under a fresh
/// column id if there is none.
pub open spec fn save_columns_spec(
    folder: Seq<char>,
    db: Seq<char>,
    table_id: Seq<char>,
    names: Seq<Seq<char>>,
    answers: Seq<u64>,
    r: DbStep<()>,
) -> bool
    decreases names.len(),
{
    if names.len() == 0 {
        r == DbStep::<()>::Done(())
    } else if answers.len() == 0 {
        r matches DbStep::Query(st) && st@ == stmt(folder, db, column_count_sql(names[0]), Seq::empty())
    } else if answers[0] > 0 {
        save_columns_spec(folder, db, table_id, names.drop_first(), answers.drop_first(), r)
    } else if answers.len() == 1 {
        r matches DbStep::Execute(st) && exists|col_id: Seq<char>|
            col_id.len() == 36 && st@ == stmt(folder, db, add_column_sql(table_id, col_id, names[0]), Seq::empty())
    } else {
        save_columns_spec(folder, db, table_id, names.drop_first(), answers.subrange(2, answers.len() as int), r)
    }
}

fn column_names_of_schema(schema: &Table) -> (r: Vec<String>)
    requires
        schema_rows_readable(schema.rows@),
    ensures
        r@.map_values(|s: String| s@) == schema_column_names(schema.rows@),
{
    proof {
        reveal_strlit("name");
    }
    let mut out: Vec<String> = Vec::new();
    let mut i: usize = 0;
    assert(schema.rows@.subrange(0, 0) =~= Seq::<TableRow>::empty());
    assert(out@.map_values(|s: String| s@) =~= Seq::<Seq<char>>::empty());
    while i < schema.rows.len()
        invariant
            schema_rows_readable(schema.rows@),
            i <= schema.rows@.len(),
            out@.map_values(|s: String| s@) == schema_column_names(schema.rows@.subrange(0, i as int)),
        decreases schema.rows.len() - i,
    {
        let ghost pre = schema.rows@.subrange(0, i as int);
        let ghost post = schema.rows@.subrange(0, i + 1);
        assert(post.drop_last() =~= pre);
        assert(post.last() == schema.rows@[i as int]);
        let ghost before = out@.map_values(|s: String| s@);
        let row = &schema.rows[i];
        assert(row.vals@.len() >= 2);
        let v = &row.vals[1];
        if text_eq(v.col.name.as_str(), "name") {
            let t = match &v.data {
                Some(d) => d.data_string.clone(),
                None => String::new(),
            };
            out.push(t);
            assert(out@.map_values(|s: String| s@) =~= before + seq![text_of(*v)]);
        } else {
            assert(before + Seq::<Seq<char>>::empty() =~= before);
        }
        i = i + 1;
    }
    assert(schema.rows@.subrange(0, schema.rows@.len() as int) =~= schema.rows@);
    out
}

proof fn lemma_names_suffix(names: Seq<Seq<char>>, i: int, answers: Seq<u64>, p: int)
    requires
        0 <= i < names.len(),
        0 <= p <= answers.len(),
    ensures
        names.subrange(i, names.len() as int)[0] == names[i],
        names.subrange(i, names.len() as int).drop_first() == names.subrange(i + 1, names.len() as int),
        p + 1 <= answers.len() ==> answers.subrange(p, answers.len() as int).drop_first()
            == answers.subrange(p + 1, answers.len() as int),
        p + 2 <= answers.len() ==> answers.subrange(p, answers.len() as int).subrange(
            2,
            answers.len() - p,
        ) == answers.subrange(p + 2, answers.len() as int),
{
    assert(names.subrange(i, names.len() as int).drop_first() =~= names.subrange(i + 1, names.len() as int));
    if p + 1 <= answers.len() {
        assert(answers.subrange(p, answers.len() as int).drop_first() =~= answers.subrange(
            p + 1,
            answers.len() as int,
        ));
    }
    if p + 2 <= answers.len() {
        assert(answers.subrange(p, answers.len() as int).subrange(2, answers.len() - p)
            =~= answers.subrange(p + 2, answers.len() as int));
    }
}

/// Records, in the user database `db_name`, the columns that the schema
/// read `schema` of table `table_id` lists, where not already recorded: the
/// next step, given the outcomes of the steps taken so far (see
/// `save_columns_spec` and `schema_column_names`). A row without a second
/// value, or whose `name` value holds no data, is refused.
pub fn save_schema_to_data_host_tables(
    db_name: &str,
    table_id: &str,
    schema: &Table,
    config: &DbiConfigSqlite,
    answers: &Vec<u64>,
) -> (r: DbStep<()>)
    requires
        schema_rows_readable(schema.rows@),
    ensures
        save_columns_spec(
            config.root_folder@,
            db_name@,
            table_id@,
            schema_column_names(schema.rows@),
            answers@,
            r,
        ),
{
    proof {
        reveal_strlit(":col_name");
        reveal_strlit(":table_id");
        reveal_strlit(":col_id");
    }
    let names = column_names_of_schema(schema);
    let ghost ns = names@.map_values(|s: String| s@);
    let mut i: usize = 0;
    let mut p: usize = 0;
    assert(ns.subrange(0, ns.len() as int) =~= ns);
    assert(answers@.subrange(0, answers@.len() as int) =~= answers@);
    while i < names.len()
        invariant
            ns == names@.map_values(|s: String| s@),
            ns == schema_column_names(schema.rows@),
            i <= names@.len(),
            p <= answers@.len(),
            forall|r: DbStep<()>|
                save_columns_spec(
                    config.root_folder@,
                    db_name@,
                    table_id@,
                    ns.subrange(i as int, ns.len() as int),
                    answers@.subrange(p as int, answers@.len() as int),
                    r,
                ) ==> #[trigger] save_columns_spec(config.root_folder@, db_name@, table_id@, ns, answers@, r),
        decreases names.len() - i,
    {
        proof {
            lemma_names_suffix(ns, i as int, answers@, p as int);
        }
        let name = names[i].as_str();
        assert(ns[i as int] == name@);
        if p == answers.len() {
            assert(answers@.subrange(p as int, answers@.len() as int).len() == 0);
            proof {
                reveal_strlit(":col_name");
            }
            let cmd = replace(COLUMN_COUNT_BY_NAME, ":col_name", name);
            return DbStep::Query(plain_statement(config.root_folder.as_str(), db_name, cmd.as_str()));
        }
        assert(answers@.subrange(p as int, answers@.len() as int)[0] == answers@[p as int]);
        if answers[p] > 0 {
            p = p + 1;
        } else if p + 1 == answers.len() {
            assert(answers@.subrange(p as int, answers@.len() as int).len() == 1);
            let col_id = new_guid_text();
            proof {
                reveal_strlit(":col_name");
                reveal_strlit(":table_id");
                reveal_strlit(":col_id");
            }
            let cmd = replace(ADD_HOST_COLUMN, ":table_id", table_id);
            let cmd = replace(cmd.as_str(), ":col_id", col_id.as_str());
            let cmd = replace(cmd.as_str(), ":col_name", name);
            return DbStep::Execute(plain_statement(config.root_folder.as_str(), db_name, cmd.as_str()));
        } else {
            p = p + 2;
        }
        i = i + 1;
    }
    assert(ns.subrange(i as int, ns.len() as int).len() == 0);
    DbStep::Done(())
}

} // verus!

verus! {

/// A column that the count finds unrecorded is recorded: where the first
/// column's count answers 0, the next step inserts that column, under a
/// fresh column id, into the recorded columns of the table.
pub proof fn law_uncounted_column_is_recorded(
    folder: Seq<char>,
    db: Seq<char>,
    table_id: Seq<char>,
    names: Seq<Seq<char>>,
    r: DbStep<()>,
)
    requires
        names.len() > 0,
        save_columns_spec(folder, db, table_id, names, seq![0u64], r),
    ensures
        r matches DbStep::Execute(st) && exists|col_id: Seq<char>|
            col_id.len() == 36 && st@ == stmt(folder, db, add_column_sql(table_id, col_id, names[0]), Seq::empty()),
{
}

/// A column that the count finds recorded is not inserted again: after a
/// count above 0, the steps are those of recording the other columns, as
/// if the first were not listed.
pub proof fn law_counted_column_is_skipped(
    folder: Seq<char>,
    db: Seq<char>,
    table_id: Seq<char>,
    names: Seq<Seq<char>>,
    answers: Seq<u64>,
    r: DbStep<()>,
)
    requires
        names.len() > 0,
        answers.len() > 0,
        answers[0] > 0,
        save_columns_spec(folder, db, table_id, names, answers, r),
    ensures
        save_columns_spec(folder, db, table_id, names.drop_first(), answers.drop_first(), r),
        names.len() == 1 ==> r == DbStep::<()>::Done(()),
{
    if names.len() == 1 {
        assert(names.drop_first().len() == 0);
    }
}

/// The first step of recording columns counts the recorded columns of the
/// first name; with no column listed, nothing is done.
pub proof fn law_columns_are_counted_first(
    folder: Seq<char>,
    db: Seq<char>,
    table_id: Seq<char>,
    names: Seq<Seq<char>>,
    r: DbStep<()>,
)
    requires
        save_columns_spec(folder, db, table_id, names, Seq::empty(), r),
    ensures
        names.len() > 0 ==> (r matches DbStep::Query(st) && st@ == stmt(folder, db, column_count_sql(names[0]), Seq::empty())),
        names.len() == 0 ==> r == DbStep::<()>::Done(()),
{
}

} // verus!
