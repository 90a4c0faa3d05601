//! Changes that a host sends to the partial database a participant holds:
//! which rows a change touches, the statements that keep each row's hash in
//! the table's metadata table, and what is reported back.
use vstd::prelude::*;

use crate::dbi::DbiConfigSqlite;
use crate::sqlite_store::{for_table, partial_db_file_name, partial_file_name, TABLE_COL_NAMES};
use crate::statement::{
    blob_param, int_param, plain_statement, stmt, with_param, DbStatement, DbStep, SqlValueView,
};
use crate::text::{decimal, replace, spec_replace, u32_to_text};

verus! {

/// The statement that reads the row ids of the rows a change touches.
pub const ROW_IDS: &'static str = "SELECT ROWID FROM :table_name WHERE :where_clause";

/// The statement that reads the columns of one row.
pub const ROW_COLUMNS: &'static str = "SELECT :col_names FROM :table_name WHERE ROWID = :rid";

/// The statement that records the new hash of a row (named parameters).
pub const UPDATE_ROW_HASH: &'static str = "UPDATE :table_name SET HASH = :hash WHERE ROW_ID = :rid";

/// The statement that forgets the hash of a deleted row (named parameter).
pub const DELETE_ROW_HASH: &'static str = "DELETE FROM :table_name WHERE ROW_ID = :rid";

/// What an update of a partial database reports: whether it was made, and
/// the id and new hash of the first row it changed.
#[derive(Debug, Clone, Copy)]
pub struct UpdatePartialDataResult {
    pub is_successful: bool,
    pub row_id: u32,
    pub data_hash: u64,
}

/// What a delete from a partial database reports: whether it was made, and
/// the id of the first row it removed.
#[derive(Debug, Clone, Copy)]
pub struct DeletePartialDataResult {
    pub is_successful: bool,
    pub row_id: u32,
    pub data_hash: u64,
}

/// The statement text that reads the ids of the rows of `table` that meet
/// `where_clause`; without a where clause, every row, the `WHERE` being
/// taken out.
pub open spec fn row_ids_sql(table: Seq<char>, where_clause: Seq<char>) -> Seq<char> {
    let s = spec_replace(ROW_IDS@, ":table_name"@, table);
    if where_clause.len() > 0 {
        spec_replace(s, ":where_clause"@, where_clause)
    } else {
        spec_replace(spec_replace(s, "WHERE"@, Seq::empty()), ":where_clause"@, Seq::empty())
    }
}

/// The statement text that reads the ids of the rows a change of `table`
/// with the where clause `where_clause` touches (see `row_ids_sql`).
pub fn row_ids_statement(table_name: &str, where_clause: &str) -> (r: String)
    ensures
        r@ == row_ids_sql(table_name@, where_clause@),
{
    proof {
        reveal_strlit(":table_name");
        reveal_strlit(":where_clause");
        reveal_strlit("WHERE");
        reveal_strlit("");
        assert(""@ =~= Seq::<char>::empty());
    }
    let cmd = replace(ROW_IDS, ":table_name", table_name);
    if where_clause.unicode_len() > 0 {
        replace(cmd.as_str(), ":where_clause", where_clause)
    } else {
        let cmd = replace(cmd.as_str(), "WHERE", "");
        replace(cmd.as_str(), ":where_clause", "")
    }
}

/// The names joined, each followed by a comma.
pub open spec fn comma_list(names: Seq<String>) -> Seq<char>
    decreases names.len(),
{
    if names.len() == 0 {
        Seq::empty()
    } else {
        comma_list(names.drop_last()) + names.last()@ + ","@
    }
}

/// The statement text that reads the columns `col_names` of row `:rid` of
/// `table`: the names joined by commas.
pub open spec fn row_columns_sql(col_names: Seq<String>, table: Seq<char>) -> Seq<char> {
    let list = comma_list(col_names);
    spec_replace(
        spec_replace(ROW_COLUMNS@, ":table_name"@, table),
        ":col_names"@,
        list.subrange(0, list.len() - 1),
    )
}

/// The statement text that reads the columns `col_names` of a row of
/// `table_name`, the row id left as `:rid` (see `row_columns_sql`). A table
/// without columns is refused.
pub fn row_columns_statement(col_names: &Vec<String>, table_name: &str) -> (r: String)
    requires
        col_names@.len() > 0,
    ensures
        r@ == row_columns_sql(col_names@, table_name@),
{
    proof {
        reveal_strlit(":table_name");
        reveal_strlit(":col_names");
        reveal_strlit(",");
    }
    let cmd = replace(ROW_COLUMNS, ":table_name", table_name);
    let mut list = String::new();
    let mut k: usize = 0;
    while k < col_names.len()
        invariant
            k <= col_names@.len(),
            list@ == comma_list(col_names@.subrange(0, k as int)),
        decreases col_names.len() - k,
    {
        let ghost pre = col_names@.subrange(0, k as int);
        let ghost post = col_names@.subrange(0, k + 1);
        assert(post.drop_last() =~= pre);
        list.append(col_names[k].as_str());
        list.append(",");
        k = k + 1;
    }
    assert(col_names@.subrange(0, col_names@.len() as int) =~= col_names@);
    let n = list.as_str().unicode_len();
    assert(n >= 1);
    let inner = list.as_str().substring_char(0, n - 1);
    replace(cmd.as_str(), ":col_names", inner)
}

/// The statement text that reads row `row_id` with the columns of `cols`
/// (a text from `row_columns_statement`).
pub fn row_columns_for(cols: &str, row_id: u32) -> (r: String)
    ensures
        r@ == spec_replace(cols@, ":rid"@, decimal(row_id as nat)),
{
    proof {
        reveal_strlit(":rid");
    }
    let rid = u32_to_text(row_id);
    replace(cols, ":rid", rid.as_str())
}

/// The statement text that records the new hash of a row in the metadata
/// table `metadata_table`.
pub fn update_row_hash_statement(metadata_table: &str) -> (r: String)
    ensures
        r@ == spec_replace(UPDATE_ROW_HASH@, ":table_name"@, metadata_table@),
{
    proof {
        reveal_strlit(":table_name");
    }
    replace(UPDATE_ROW_HASH, ":table_name", metadata_table)
}

/// The statement text that forgets the hash of a deleted row in the
/// metadata table `metadata_table`.
pub fn delete_row_hash_statement(metadata_table: &str) -> (r: String)
    ensures
        r@ == spec_replace(DELETE_ROW_HASH@, ":table_name"@, metadata_table@),
{
    proof {
        reveal_strlit(":table_name");
    }
    replace(DELETE_ROW_HASH, ":table_name", metadata_table)
}

/// What an update reports, given the ids of the rows it changed and the
/// new hash of each, in the same order: success, with the first row. An
/// update that changed no row is refused.
pub fn update_result(row_ids: &Vec<u32>, row_hashes: &Vec<u64>) -> (r: UpdatePartialDataResult)
    requires
        row_ids@.len() > 0,
        row_hashes@.len() == row_ids@.len(),
    ensures
        r.is_successful,
        r.row_id == row_ids@[0],
        r.data_hash == row_hashes@[0],
{
    UpdatePartialDataResult { is_successful: true, row_id: row_ids[0], data_hash: row_hashes[0] }
}

/// What a delete reports, given the ids of the rows it removed, in order:
/// success, with the first row and no hash. A delete that removed no row
/// is refused.
pub fn delete_result(row_ids: &Vec<u32>) -> (r: DeletePartialDataResult)
    requires
        row_ids@.len() > 0,
    ensures
        r.is_successful,
        r.row_id == row_ids@[0],
        r.data_hash == 0,
{
    DeletePartialDataResult { is_successful: true, row_id: row_ids[0], data_hash: 0 }
}

/// The eight bytes of `h`, least significant first.
pub open spec fn le_bytes(h: u64) -> Seq<u8> {
    seq![
        (h % 0x100) as u8,
        ((h / 0x100) % 0x100) as u8,
        ((h / 0x10000) % 0x100) as u8,
        ((h / 0x1000000) % 0x100) as u8,
        ((h / 0x100000000) % 0x100) as u8,
        ((h / 0x10000000000) % 0x100) as u8,
        ((h / 0x1000000000000) % 0x100) as u8,
        ((h / 0x100000000000000) % 0x100) as u8,
    ]
}

/// The eight bytes of `h`, most significant first.
pub open spec fn be_bytes(h: u64) -> Seq<u8> {
    seq![
        ((h / 0x100000000000000) % 0x100) as u8,
        ((h / 0x1000000000000) % 0x100) as u8,
        ((h / 0x10000000000) % 0x100) as u8,
        ((h / 0x100000000) % 0x100) as u8,
        ((h / 0x1000000) % 0x100) as u8,
        ((h / 0x10000) % 0x100) as u8,
        ((h / 0x100) % 0x100) as u8,
        (h % 0x100) as u8,
    ]
}

/// The bytes of `h` in the machine's byte order: its little-endian or its
/// big-endian bytes.
pub open spec fn is_native_bytes(b: Seq<u8>, h: u64) -> bool {
    b == le_bytes(h) || b == be_bytes(h)
}

/// Calls `u64::to_ne_bytes`: the memory representation of `h` in the
/// machine's byte order, which std documents as `to_le_bytes` on a
/// little-endian target and `to_be_bytes` on a big-endian one. Which of the
/// two depends on the machine and is left open.
#[verifier::external_body]
fn ne_bytes(h: u64) -> (r: [u8; 8])
    ensures
        is_native_bytes(r@, h),
{
    h.to_ne_bytes()
}

fn hash_blob(h: u64) -> (r: Vec<u8>)
    ensures
        is_native_bytes(r@, h),
{
    let a = ne_bytes(h);
    let mut v: Vec<u8> = Vec::new();
    let mut k: usize = 0;
    while k < 8
        invariant
            k <= 8,
            a@.len() == 8,
            v@ == a@.subrange(0, k as int),
        decreases 8 - k,
    {
        v.push(a[k]);
        k = k + 1;
        assert(v@ =~= a@.subrange(0, k as int));
    }
    assert(a@.subrange(0, 8) =~= a@);
    v
}

/// `st` runs the text `sql` against the partial database held for `db`, in
/// the folder `folder`, with the parameters `params`.
pub open spec fn partial_at(
    st: DbStatement,
    folder: Seq<char>,
    db: Seq<char>,
    sql: Seq<char>,
    params: Seq<(Seq<char>, SqlValueView)>,
) -> bool {
    st@ == stmt(folder, partial_file_name(db), sql, params)
}

/// The steps of a delete sent to a partial database: read the ids of the
/// rows it touches (they are `row_ids`), run it, then forget the hash of
/// each of those rows, in order; report the first of them.
pub open spec fn delete_spec(
    folder: Seq<char>,
    db: Seq<char>,
    table: Seq<char>,
    cmd: Seq<char>,
    where_clause: Seq<char>,
    metadata_table: Seq<char>,
    row_ids: Seq<u32>,
    answers: Seq<u64>,
    r: DbStep<DeletePartialDataResult>,
) -> bool {
    let n = answers.len();
    if n == 0 {
        r matches DbStep::Read(st) && partial_at(st, folder, db, row_ids_sql(table, where_clause), Seq::empty())
    } else if n == 1 {
        r matches DbStep::Execute(st) && partial_at(st, folder, db, cmd, Seq::empty())
    } else if n < 2 + row_ids.len() {
        r matches DbStep::Execute(st) && partial_at(
            st,
            folder,
            db,
            spec_replace(DELETE_ROW_HASH@, ":table_name"@, metadata_table),
            seq![(":rid"@, SqlValueView::Int(row_ids[n - 2] as int))],
        )
    } else {
        r matches DbStep::Done(x) && x.is_successful && x.row_id == row_ids[0] && x.data_hash == 0
    }
}

/// Deletes rows from a partial database with the statement `cmd` (whose
/// where clause is `where_clause`), forgetting their hashes in the metadata
/// table `metadata_table`: the next step, given the ids of the rows it
/// touches (`row_ids`, once read) and the outcomes of the steps taken so
/// far (see `delete_spec`). A delete that removed another number of rows
/// than it touched, or none, is refused.
pub fn execute_delete(
    db_name: &str,
    table_name: &str,
    cmd: &str,
    where_clause: &str,
    metadata_table: &str,
    config: &DbiConfigSqlite,
    row_ids: &Vec<u32>,
    answers: &Vec<u64>,
) -> (r: DbStep<DeletePartialDataResult>)
    requires
        answers@.len() >= 2 ==> answers@[1] == row_ids@.len(),
        answers@.len() >= 2 + row_ids@.len() ==> row_ids@.len() > 0,
    ensures
        delete_spec(
            config.root_folder@,
            db_name@,
            table_name@,
            cmd@,
            where_clause@,
            metadata_table@,
            row_ids@,
            answers@,
            r,
        ),
{
    let file = partial_db_file_name(db_name);
    let n = answers.len();
    if n == 0 {
        let sql = row_ids_statement(table_name, where_clause);
        return DbStep::Read(plain_statement(config.root_folder.as_str(), file.as_str(), sql.as_str()));
    }
    if n == 1 {
        return DbStep::Execute(plain_statement(config.root_folder.as_str(), file.as_str(), cmd));
    }
    if n - 2 < row_ids.len() {
        let sql = delete_row_hash_statement(metadata_table);
        let st = plain_statement(config.root_folder.as_str(), file.as_str(), sql.as_str());
        let r = with_param(st, int_param(":rid", row_ids[n - 2] as i64));
        assert(r@.params =~= seq![(":rid"@, SqlValueView::Int(row_ids@[n - 2] as int))]);
        return DbStep::Execute(r);
    }
    DbStep::Done(delete_result(row_ids))
}

/// The steps of an update sent to a partial database: read the ids of the
/// rows it touches (they are `row_ids`), run it, read the names of the
/// table's columns (they are `col_names`), read each touched row by those
/// columns, then record the new hash of each touched row (`row_hashes`,
/// one for each of `row_ids`, in the same order) as its bytes in the
/// machine's byte order; report the first row and its hash.
pub open spec fn update_spec(
    folder: Seq<char>,
    db: Seq<char>,
    table: Seq<char>,
    cmd: Seq<char>,
    where_clause: Seq<char>,
    metadata_table: Seq<char>,
    row_ids: Seq<u32>,
    col_names: Seq<String>,
    row_hashes: Seq<u64>,
    answers: Seq<u64>,
    r: DbStep<UpdatePartialDataResult>,
) -> bool {
    let n = answers.len();
    let reads = 3 + row_ids.len();
    if n == 0 {
        r matches DbStep::Read(st) && partial_at(st, folder, db, row_ids_sql(table, where_clause), Seq::empty())
    } else if n == 1 {
        r matches DbStep::Execute(st) && partial_at(st, folder, db, cmd, Seq::empty())
    } else if n == 2 {
        r matches DbStep::Read(st) && partial_at(st, folder, db, for_table(TABLE_COL_NAMES@, table), Seq::empty())
    } else if n < reads {
        r matches DbStep::Read(st) && partial_at(
            st,
            folder,
            db,
            spec_replace(row_columns_sql(col_names, table), ":rid"@, decimal(row_ids[n - 3] as nat)),
            Seq::empty(),
        )
    } else if n < reads + row_ids.len() {
        r matches DbStep::Execute(st) && exists|bytes: Seq<u8>|
            is_native_bytes(bytes, row_hashes[n - reads]) && partial_at(
                st,
                folder,
                db,
                spec_replace(UPDATE_ROW_HASH@, ":table_name"@, metadata_table),
                seq![
                    (":hash"@, SqlValueView::Blob(bytes)),
                    (":rid"@, SqlValueView::Int(row_ids[n - reads] as int)),
                ],
            )
    } else {
        r matches DbStep::Done(x) && x.is_successful && x.row_id == row_ids[0] && x.data_hash
            == row_hashes[0]
    }
}

/// Updates rows of a partial database with the statement `cmd` (whose
/// where clause is `where_clause`) and records the new hash of each row
/// in the metadata table `metadata_table`: the next step, given the ids of
/// the rows it touches (`row_ids`), the names of the table's columns
/// (`col_names`) and the new hash of each touched row (`row_hashes`, from
/// rcd's hashing of the values read again, one for each of `row_ids`),
/// each once read, and the outcomes of the steps taken so far (see
/// `update_spec`). An update that changed another number of rows than it
/// touched is refused, and so are a table without columns and an update
/// that touched no row.
pub fn execute_update_overwrite(
    db_name: &str,
    table_name: &str,
    cmd: &str,
    where_clause: &str,
    metadata_table: &str,
    config: &DbiConfigSqlite,
    row_ids: &Vec<u32>,
    col_names: &Vec<String>,
    row_hashes: &Vec<u64>,
    answers: &Vec<u64>,
) -> (r: DbStep<UpdatePartialDataResult>)
    requires
        answers@.len() >= 2 ==> answers@[1] == row_ids@.len(),
        answers@.len() >= 3 ==> col_names@.len() > 0,
        answers@.len() >= 3 + row_ids@.len() ==> row_hashes@.len() == row_ids@.len(),
        answers@.len() >= 3 + 2 * row_ids@.len() ==> row_ids@.len() > 0,
        2 * row_ids@.len() + 3 <= usize::MAX,
    ensures
        update_spec(
            config.root_folder@,
            db_name@,
            table_name@,
            cmd@,
            where_clause@,
            metadata_table@,
            row_ids@,
            col_names@,
            row_hashes@,
            answers@,
            r,
        ),
{
    let file = partial_db_file_name(db_name);
    let folder = config.root_folder.as_str();
    let n = answers.len();
    let reads = 3 + row_ids.len();
    if n == 0 {
        let sql = row_ids_statement(table_name, where_clause);
        return DbStep::Read(plain_statement(folder, file.as_str(), sql.as_str()));
    }
    if n == 1 {
        return DbStep::Execute(plain_statement(folder, file.as_str(), cmd));
    }
    if n == 2 {
        proof {
            reveal_strlit(":table_name");
        }
        let sql = replace(TABLE_COL_NAMES, ":table_name", table_name);
        return DbStep::Read(plain_statement(folder, file.as_str(), sql.as_str()));
    }
    if n < reads {
        let cols = row_columns_statement(col_names, table_name);
        let sql = row_columns_for(cols.as_str(), row_ids[n - 3]);
        return DbStep::Read(plain_statement(folder, file.as_str(), sql.as_str()));
    }
    if n - reads < row_ids.len() {
        let rid = row_ids[n - reads];
        let h = row_hashes[n - reads];
        let sql = update_row_hash_statement(metadata_table);
        let bytes = hash_blob(h);
        let ghost bv = bytes@;
        let st = plain_statement(folder, file.as_str(), sql.as_str());
        let st = with_param(st, blob_param(":hash", bytes));
        let r = with_param(st, int_param(":rid", rid as i64));
        assert(r@.params =~= seq![
            (":hash"@, SqlValueView::Blob(bv)),
            (":rid"@, SqlValueView::Int(row_ids@[n - reads] as int)),
        ]);
        return DbStep::Execute(r);
    }
    DbStep::Done(update_result(row_ids, row_hashes))
}

} // verus!
