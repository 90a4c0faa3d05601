//! What a read returns: the cells of a result, as the store hands them
//! back, turned into the text of a table; and the single values that
//! scalar reads keep.
use vstd::prelude::*;

use crate::cdata::{ColumnSchema, RowValue};
use crate::rcd_enum::{column_type_of, spec_lowercase, ColumnType};
use crate::table::{Column, Data, Row, Table, Value};
use crate::text::{decimal, replace, spec_replace, u32_to_text, u64_to_text};

verus! {

/// A cell of a result as the store hands it back. A real number is carried
/// as the text it is written with.
#[derive(Debug, Clone)]
pub enum SqlCell {
    Null,
    Integer(i64),
    Real(String),
    Text(String),
    Blob(Vec<u8>),
}

/// The decimal rendering of a signed integer, with a leading minus sign if
/// it is negative, as `to_string` writes it.
pub open spec fn signed_decimal(i: int) -> Seq<char> {
    if i < 0 {
        seq!['-'] + decimal((-i) as nat)
    } else {
        decimal(i as nat)
    }
}

/// The decimal text of a signed integer.
pub fn i64_to_text(n: i64) -> (r: String)
    ensures
        r@ == signed_decimal(n as int),
{
    if n < 0 {
        let m: u64 = if n == i64::MIN {
            9223372036854775808u64
        } else {
            (-n) as u64
        };
        let digits = u64_to_text(m);
        let mut out = String::new();
        proof {
            reveal_strlit("-");
        }
        out.append("-");
        out.append(digits.as_str());
        assert(out@ =~= seq!['-'] + decimal((-(n as int)) as nat));
        out
    } else {
        u64_to_text(n as u64)
    }
}

/// The text a cell is read as: an integer in decimal, a real or a text as
/// written, and nothing for a blob or a null.
pub open spec fn cell_text_spec(c: SqlCell) -> Seq<char> {
    match c {
        SqlCell::Null => Seq::empty(),
        SqlCell::Integer(i) => signed_decimal(i as int),
        SqlCell::Real(t) => t@,
        SqlCell::Text(t) => t@,
        SqlCell::Blob(_) => Seq::empty(),
    }
}

/// The text a cell is read as (see `cell_text_spec`).
pub fn cell_text(c: &SqlCell) -> (r: String)
    ensures
        r@ == cell_text_spec(*c),
{
    match c {
        SqlCell::Null => String::new(),
        SqlCell::Integer(i) => i64_to_text(*i),
        SqlCell::Real(t) => t.clone(),
        SqlCell::Text(t) => t.clone(),
        SqlCell::Blob(_) => String::new(),
    }
}

/// The column of a result at position `k`, with its name and declared
/// type: neither nullable nor a primary key, and indexed by its position.
pub open spec fn result_column(cols: Seq<(String, String)>, k: int) -> Column {
    Column {
        name: cols[k].0,
        is_nullable: false,
        idx: k as usize,
        data_type: cols[k].1,
        is_primary_key: false,
    }
}

/// `v` holds the text of cell `c` of the column `col`, and no bytes.
pub open spec fn holds_cell(v: Value, c: SqlCell, col: Column) -> bool {
    &&& v.col == col
    &&& v.data matches Some(d) && d.data_string@ == cell_text_spec(c) && d.data_byte@.len() == 0
}

/// `t` is the table read from a result with columns `cols` (name and
/// declared type, in order) and rows `rows`: its columns in that order, and
/// each row holding, in column order, the text of each of its cells.
pub open spec fn is_result_table(t: Table, cols: Seq<(String, String)>, rows: Seq<Vec<SqlCell>>) -> bool {
    &&& t.num_cols == 0
    &&& t.name@.len() == 0
    &&& t.cols@.len() == cols.len()
    &&& forall|k: int| 0 <= k < cols.len() ==> #[trigger] t.cols@[k] == result_column(cols, k)
    &&& t.rows@.len() == rows.len()
    &&& forall|i: int|
        #![trigger t.rows@[i]]
        0 <= i < rows.len() ==> t.rows@[i].vals@.len() == cols.len() && forall|k: int|
            0 <= k < cols.len() ==> holds_cell(
                #[trigger] t.rows@[i].vals@[k],
                rows[i]@[k],
                result_column(cols, k),
            )
}

fn result_column_of(cols: &Vec<(String, String)>, k: usize) -> (r: Column)
    requires
        k < cols@.len(),
    ensures
        r == result_column(cols@, k as int),
{
    Column {
        name: cols[k].0.clone(),
        is_nullable: false,
        idx: k,
        data_type: cols[k].1.clone(),
        is_primary_key: false,
    }
}

fn result_row(cols: &Vec<(String, String)>, cells: &Vec<SqlCell>) -> (r: Row)
    requires
        cells@.len() == cols@.len(),
    ensures
        r.vals@.len() == cols@.len(),
        forall|k: int|
            0 <= k < cols@.len() ==> holds_cell(#[trigger] r.vals@[k], cells@[k], result_column(cols@, k)),
{
    let mut row = Row::new();
    let mut k: usize = 0;
    while k < cols.len()
        invariant
            cells@.len() == cols@.len(),
            k <= cols@.len(),
            row.vals@.len() == k,
            forall|j: int|
                0 <= j < k ==> holds_cell(#[trigger] row.vals@[j], cells@[j], result_column(cols@, j)),
        decreases cols.len() - k,
    {
        let text = cell_text(&cells[k]);
        let v = Value {
            data: Some(Data { data_string: text, data_byte: Vec::new() }),
            col: result_column_of(cols, k),
        };
        row.add_value(v);
        k = k + 1;
    }
    row
}

/// A character with an ASCII capital made small.
pub open spec fn ascii_lower(c: char) -> char {
    if 'A' <= c && c <= 'Z' {
        ((c as int) + 32) as char
    } else {
        c
    }
}

/// Two names are the same without regard to ASCII case: the test by which
/// a statement finds a column's position from its name.
pub open spec fn same_name(a: Seq<char>, b: Seq<char>) -> bool {
    &&& a.len() == b.len()
    &&& forall|i: int| 0 <= i < a.len() ==> ascii_lower(#[trigger] a[i]) == ascii_lower(b[i])
}

/// No two columns of a result share a name, without regard to ASCII case.
/// A column's position is found from its name, so a shared name would
/// leave a later position without a column; a read of such a result that
/// returns rows is refused.
pub open spec fn distinct_names(cols: Seq<(String, String)>) -> bool {
    forall|j: int, k: int| 0 <= j < k < cols.len() ==> !same_name(#[trigger] cols[j].0@, #[trigger] cols[k].0@)
}

/// The table read from a result: its columns (name and declared type of
/// each, in order) and its rows, each with one cell per column.
pub fn execute_read_on_connection(cols: &Vec<(String, String)>, rows: &Vec<Vec<SqlCell>>) -> (r: Table)
    requires
        rows@.len() > 0 ==> distinct_names(cols@),
        forall|i: int| 0 <= i < rows@.len() ==> (#[trigger] rows@[i])@.len() == cols@.len(),
    ensures
        is_result_table(r, cols@, rows@),
{
    let mut table = Table::new();
    let mut k: usize = 0;
    while k < cols.len()
        invariant
            k <= cols@.len(),
            table.num_cols == 0,
            table.name@.len() == 0,
            table.rows@.len() == 0,
            table.cols@.len() == k,
            forall|j: int| 0 <= j < k ==> #[trigger] table.cols@[j] == result_column(cols@, j),
        decreases cols.len() - k,
    {
        table.add_column(result_column_of(cols, k));
        k = k + 1;
    }
    let mut i: usize = 0;
    while i < rows.len()
        invariant
            forall|x: int| 0 <= x < rows@.len() ==> (#[trigger] rows@[x])@.len() == cols@.len(),
            i <= rows@.len(),
            table.num_cols == 0,
            table.name@.len() == 0,
            table.cols@.len() == cols@.len(),
            forall|j: int| 0 <= j < cols@.len() ==> #[trigger] table.cols@[j] == result_column(cols@, j),
            table.rows@.len() == i,
            forall|x: int|
                #![trigger table.rows@[x]]
                0 <= x < i ==> table.rows@[x].vals@.len() == cols@.len() && forall|k: int|
                    0 <= k < cols@.len() ==> holds_cell(
                        #[trigger] table.rows@[x].vals@[k],
                        rows@[x]@[k],
                        result_column(cols@, k),
                    ),
        decreases rows.len() - i,
    {
        assert(rows@[i as int]@.len() == cols@.len());
        let row = result_row(cols, &rows[i]);
        table.add_row(row);
        i = i + 1;
    }
    table
}

/// The texts of the values of a row, in order.
pub open spec fn row_texts(vals: Seq<Value>) -> Seq<Seq<char>>
    decreases vals.len(),
{
    if vals.len() == 0 {
        Seq::empty()
    } else {
        row_texts(vals.drop_last()).push(vals.last().data->0.data_string@)
    }
}

/// The texts of the values of the rows, row by row, in order.
pub open spec fn table_texts(rows: Seq<Row>) -> Seq<Seq<char>>
    decreases rows.len(),
{
    if rows.len() == 0 {
        Seq::empty()
    } else {
        table_texts(rows.drop_last()) + row_texts(rows.last().vals@)
    }
}

/// Every value of every row holds data.
pub open spec fn all_values_present(rows: Seq<Row>) -> bool {
    forall|i: int, k: int|
        0 <= i < rows.len() && 0 <= k < rows[i].vals@.len() ==> (#[trigger] rows[i].vals@[k]).data is Some
}

fn push_row_texts(out: &mut Vec<String>, row: &Row)
    requires
        forall|k: int| 0 <= k < row.vals@.len() ==> (#[trigger] row.vals@[k]).data is Some,
    ensures
        final(out)@.map_values(|s: String| s@) == old(out)@.map_values(|s: String| s@) + row_texts(
            row.vals@,
        ),
{
    let ghost start = out@.map_values(|s: String| s@);
    let mut k: usize = 0;
    while k < row.vals.len()
        invariant
            forall|j: int| 0 <= j < row.vals@.len() ==> (#[trigger] row.vals@[j]).data is Some,
            k <= row.vals@.len(),
            out@.map_values(|s: String| s@) == start + row_texts(row.vals@.subrange(0, k as int)),
        decreases row.vals.len() - k,
    {
        let ghost pre = row.vals@.subrange(0, k as int);
        let ghost post = row.vals@.subrange(0, k + 1);
        assert(post.drop_last() =~= pre);
        let ghost before = out@.map_values(|s: String| s@);
        let text = match &row.vals[k].data {
            Some(d) => d.data_string.clone(),
            None => String::new(),
        };
        out.push(text);
        assert(out@.map_values(|s: String| s@) =~= before.push(row.vals@[k as int].data->0.data_string@));
        k = k + 1;
    }
    assert(row.vals@.subrange(0, row.vals@.len() as int) =~= row.vals@);
}

/// The names read by the statement that lists the user tables of a
/// database: the text of every value, row by row. A value without data is
/// refused.
pub fn get_all_user_table_names_in_db(names: &Table) -> (r: Vec<String>)
    requires
        all_values_present(names.rows@),
    ensures
        r@.map_values(|s: String| s@) == table_texts(names.rows@),
{
    let mut out: Vec<String> = Vec::new();
    let mut i: usize = 0;
    while i < names.rows.len()
        invariant
            all_values_present(names.rows@),
            i <= names.rows@.len(),
            out@.map_values(|s: String| s@) == table_texts(names.rows@.subrange(0, i as int)),
        decreases names.rows.len() - i,
    {
        let ghost pre = names.rows@.subrange(0, i as int);
        let ghost post = names.rows@.subrange(0, i + 1);
        assert(post.drop_last() =~= pre);
        let row = &names.rows[i];
        assert forall|k: int| 0 <= k < row.vals@.len() implies (#[trigger] row.vals@[k]).data is Some by {
            assert(names.rows@[i as int].vals@[k].data is Some);
        }
        push_row_texts(&mut out, row);
        i = i + 1;
    }
    assert(names.rows@.subrange(0, names.rows@.len() as int) =~= names.rows@);
    out
}

/// The value a scalar read keeps: the last one read, or `default` if none
/// was.
pub open spec fn last_or<T>(values: Seq<T>, default: T) -> T {
    if values.len() == 0 {
        default
    } else {
        values.last()
    }
}

/// The number a scalar read of a number keeps: the last value read, or 0.
pub fn get_scalar_as_u32(values: &Vec<u32>) -> (r: u32)
    ensures
        r == last_or(values@, 0u32),
{
    if values.len() == 0 {
        0
    } else {
        values[values.len() - 1]
    }
}

/// The flag a scalar read of a flag keeps: the last value read, or false.
pub fn get_scalar_as_bool(values: &Vec<bool>) -> (r: bool)
    ensures
        r == last_or(values@, false),
{
    if values.len() == 0 {
        false
    } else {
        values[values.len() - 1]
    }
}

/// The text a scalar read of a text keeps: the last value read, or the
/// empty text.
pub fn get_scalar_as_string(values: &Vec<String>) -> (r: String)
    ensures
        r@ == last_or(values@.map_values(|s: String| s@), Seq::empty()),
{
    if values.len() == 0 {
        String::new()
    } else {
        values[values.len() - 1].clone()
    }
}

/// The bytes a scalar read of bytes keeps: the first value read, if any.
pub fn get_scalar_as_vec_u8(values: &Vec<Vec<u8>>) -> (r: Option<Vec<u8>>)
    ensures
        match r {
            Some(b) => values@.len() > 0 && b@ == values@[0]@,
            None => values@.len() == 0,
        },
{
    if values.len() == 0 {
        None
    } else {
        Some(values[0].clone())
    }
}

/// The number of rows a count read gives: the last number read, or 0
/// (see `get_scalar_as_u32`).
pub fn total_count(values: &Vec<u32>) -> (r: u32)
    ensures
        r == last_or(values@, 0u32),
{
    get_scalar_as_u32(values)
}

/// The statement text that reads the hash of row `row_id` from the
/// metadata table `metadata_table`.
pub open spec fn row_hash_sql(metadata_table: Seq<char>, row_id: u32) -> Seq<char> {
    spec_replace(
        spec_replace(ROW_HASH@, ":table_name"@, metadata_table),
        ":rid"@,
        decimal(row_id as nat),
    )
}

/// The statement that reads the hash recorded for a row.
pub const ROW_HASH: &'static str = "SELECT HASH FROM :table_name WHERE ROW_ID = :rid";

/// The statement text that reads the hash of row `row_id` from the
/// metadata table `metadata_table`.
pub fn row_hash_statement(metadata_table: &str, row_id: u32) -> (r: String)
    ensures
        r@ == row_hash_sql(metadata_table@, row_id),
{
    proof {
        reveal_strlit(":table_name");
        reveal_strlit(":rid");
    }
    let cmd = replace(ROW_HASH, ":table_name", metadata_table);
    let rid = u32_to_text(row_id);
    replace(cmd.as_str(), ":rid", rid.as_str())
}

/// Every declared type of the columns of a result names a column type.
pub open spec fn all_types_known(cols: Seq<(String, String)>) -> bool {
    forall|k: int| 0 <= k < cols.len() ==> (#[trigger] column_type_of(spec_lowercase(cols[k].1@))) is Some
}

/// The schema of the column of a result at position `k`: its name, the
/// code of the column type its declared type names, its position as
/// ordinal and as column id, and nothing else.
pub open spec fn result_column_schema(cols: Seq<(String, String)>, k: int, c: ColumnSchema) -> bool {
    &&& c.column_name@ == cols[k].0@
    &&& c.column_type == column_type_of(spec_lowercase(cols[k].1@))->0.code()
    &&& c.column_length == 0
    &&& !c.is_nullable
    &&& c.ordinal == k
    &&& c.table_id@.len() == 0
    &&& c.column_id@ == decimal(k as nat)
    &&& !c.is_primary_key
}

fn column_schema_at(cols: &Vec<(String, String)>, k: usize) -> (r: Option<ColumnSchema>)
    requires
        k < cols@.len(),
        cols@.len() <= u32::MAX,
    ensures
        r is Some <==> column_type_of(spec_lowercase(cols@[k as int].1@)) is Some,
        r matches Some(c) ==> result_column_schema(cols@, k as int, c),
{
    match ColumnType::try_parse(cols[k].1.as_str()) {
        Some(t) => Some(
            ColumnSchema {
                column_name: cols[k].0.clone(),
                column_type: ColumnType::to_u32(t),
                column_length: 0,
                is_nullable: false,
                ordinal: k as u32,
                table_id: String::new(),
                column_id: u64_to_text(k as u64),
                is_primary_key: false,
            },
        ),
        None => None,
    }
}

/// `values` holds, row by row and in column order, a value for each cell
/// of `rows`, under the column schemas `schemas`.
pub open spec fn holds_all_cells(values: Seq<RowValue>, rows: Seq<Vec<SqlCell>>, schemas: Seq<ColumnSchema>) -> bool {
    let n = schemas.len();
    &&& values.len() == rows.len() * n
    &&& forall|i: int, k: int|
        0 <= i < rows.len() && 0 <= k < n ==> {
            let v = #[trigger] values[i * n + k];
            &&& v.column == Some(schemas[k])
            &&& !v.is_null_value
            &&& v.string_value@ == cell_text_spec(rows[i]@[k])
            &&& v.value@ == vstd::utf8::encode_utf8(v.string_value@)
        }
}

/// A row read with its hash: the values of every cell of every row of the
/// result, one after another, each under the schema of its column (see
/// `result_column_schema`), with the first hash read, if any. None where a
/// declared type names no column type (the read stops there).
pub fn execute_read_on_connection_for_row(
    db_name: &str,
    table_name: &str,
    row_id: u32,
    cols: &Vec<(String, String)>,
    rows: &Vec<Vec<SqlCell>>,
    hashes: &Vec<Vec<u8>>,
) -> (r: Option<crate::cdata::Row>)
    requires
        rows@.len() > 0 ==> distinct_names(cols@),
        cols@.len() <= u32::MAX,
        rows@.len() * cols@.len() <= usize::MAX,
        forall|i: int| 0 <= i < rows@.len() ==> (#[trigger] rows@[i])@.len() == cols@.len(),
    ensures
        r is Some <==> all_types_known(cols@),
        r matches Some(row) ==> {
            &&& row.database_name@ == db_name@
            &&& row.table_name@ == table_name@
            &&& row.row_id == row_id
            &&& row.is_remoteable
            &&& row.remote_metadata is None
            &&& row.hash@ == (if hashes@.len() > 0 { hashes@[0]@ } else { Seq::empty() })
            &&& exists|schemas: Seq<ColumnSchema>|
                schemas.len() == cols@.len() && (forall|k: int|
                    0 <= k < cols@.len() ==> result_column_schema(cols@, k, #[trigger] schemas[k]))
                    && holds_all_cells(row.values@, rows@, schemas)
        },
{
    let n = cols.len();
    let mut schemas: Vec<ColumnSchema> = Vec::new();
    let mut k: usize = 0;
    while k < n
        invariant
            n == cols@.len(),
            n <= u32::MAX,
            k <= n,
            schemas@.len() == k,
            forall|j: int| 0 <= j < k ==> result_column_schema(cols@, j, #[trigger] schemas@[j]),
            forall|j: int| 0 <= j < k ==> (#[trigger] column_type_of(spec_lowercase(cols@[j].1@))) is Some,
        decreases n - k,
    {
        match column_schema_at(cols, k) {
            Some(c) => schemas.push(c),
            None => {
                return None;
            },
        }
        k = k + 1;
    }
    let mut values: Vec<RowValue> = Vec::new();
    let mut i: usize = 0;
    assert(rows@.subrange(0, 0) =~= Seq::<Vec<SqlCell>>::empty());
    assert(0 * n == 0) by (nonlinear_arith);
    while i < rows.len()
        invariant
            n == cols@.len(),
            schemas@.len() == n,
            rows@.len() * n <= usize::MAX,
            forall|x: int| 0 <= x < rows@.len() ==> (#[trigger] rows@[x])@.len() == n,
            i <= rows@.len(),
            holds_all_cells(values@, rows@.subrange(0, i as int), schemas@),
        decreases rows.len() - i,
    {
        let ghost before = values@;
        assert(rows@[i as int]@.len() == n);
        assert((i + 1) * n <= rows@.len() * n) by (nonlinear_arith)
            requires i + 1 <= rows@.len();
        assert(i * n + n == (i + 1) * n) by (nonlinear_arith);
        let mut k: usize = 0;
        while k < n
            invariant
                n == cols@.len(),
                schemas@.len() == n,
                i < rows@.len(),
                rows@[i as int]@.len() == n,
                i * n + n <= usize::MAX,
                k <= n,
                values@.len() == i * n + k,
                values@.subrange(0, i * n) == before,
                forall|y: int|
                    0 <= y < k ==> {
                        let v = #[trigger] values@[i * n + y];
                        &&& v.column == Some(schemas@[y])
                        &&& !v.is_null_value
                        &&& v.string_value@ == cell_text_spec(rows@[i as int]@[y])
                        &&& v.value@ == vstd::utf8::encode_utf8(v.string_value@)
                    },
            decreases n - k,
        {
            let text = cell_text(&rows[i][k]);
            let bytes = text.as_str().as_bytes_vec();
            let v = RowValue {
                column: Some(schemas[k].copy()),
                is_null_value: false,
                value: bytes,
                string_value: text,
            };
            let ghost pre = values@;
            values.push(v);
            assert(values@.subrange(0, i * n) =~= pre.subrange(0, i * n));
            assert forall|y: int| 0 <= y < k implies #[trigger] values@[i * n + y] == pre[i * n + y] by {}
            k = k + 1;
        }
        proof {
            let rs = rows@.subrange(0, i + 1);
            assert forall|x: int, y: int| 0 <= x < rs.len() && 0 <= y < n implies {
                let v = #[trigger] values@[x * n + y];
                &&& v.column == Some(schemas@[y])
                &&& !v.is_null_value
                &&& v.string_value@ == cell_text_spec(rs[x]@[y])
                &&& v.value@ == vstd::utf8::encode_utf8(v.string_value@)
            } by {
                if x < i {
                    assert(x * n + y < i * n) by (nonlinear_arith)
                        requires x < i, y < n, 0 <= y;
                    assert(before[x * n + y] == values@[x * n + y]);
                    assert(rows@.subrange(0, i as int)[x] == rs[x]);
                } else {
                    assert(x == i);
                }
            }
            assert(values@.len() == rs.len() * n) by (nonlinear_arith)
                requires values@.len() == i * n + n, rs.len() == i + 1;
        }
        i = i + 1;
    }
    assert(rows@.subrange(0, rows@.len() as int) =~= rows@);
    let ghost sch = schemas@;
    assert(sch.len() == cols@.len() && (forall|k: int|
        0 <= k < cols@.len() ==> result_column_schema(cols@, k, #[trigger] sch[k]))
        && holds_all_cells(values@, rows@, sch));
    let hash = if hashes.len() > 0 {
        let h = hashes[0].clone();
        assert(h@ =~= hashes@[0]@);
        h
    } else {
        Vec::new()
    };
    assert(hash@ == (if hashes@.len() > 0 { hashes@[0]@ } else { Seq::empty() }));
    assert(exists|schemas: Seq<ColumnSchema>|
        schemas.len() == cols@.len() && (forall|k: int|
            0 <= k < cols@.len() ==> result_column_schema(cols@, k, #[trigger] schemas[k]))
            && holds_all_cells(values@, rows@, schemas));
    let row = crate::cdata::Row {
        database_name: String::from_str(db_name),
        table_name: String::from_str(table_name),
        row_id,
        values,
        is_remoteable: true,
        remote_metadata: None,
        hash,
    };
    assert(row.database_name@ == db_name@);
    assert(row.table_name@ == table_name@);
    assert(row.hash@ == (if hashes@.len() > 0 { hashes@[0]@ } else { Seq::empty() }));
    assert(holds_all_cells(row.values@, rows@, sch));
    Some(row)
}

} // verus!
