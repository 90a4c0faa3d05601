//! Statements for the backing store: the SQL text, the database file it runs
//! against, and its named parameters; and the steps of an operation that
//! runs statements one after another.
use vstd::prelude::*;

verus! {

/// A value bound to a named parameter.
#[derive(Debug, Clone)]
pub enum SqlValue {
    Text(String),
    Int(i64),
    Blob(Vec<u8>),
}

/// The mathematical value of a parameter value.
pub enum SqlValueView {
    Text(Seq<char>),
    Int(int),
    Blob(Seq<u8>),
}

impl View for SqlValue {
    type V = SqlValueView;

    open spec fn view(&self) -> SqlValueView {
        match self {
            SqlValue::Text(s) => SqlValueView::Text(s@),
            SqlValue::Int(i) => SqlValueView::Int(*i as int),
            SqlValue::Blob(b) => SqlValueView::Blob(b@),
        }
    }
}

/// A named parameter of a statement, such as `:username`.
#[derive(Debug, Clone)]
pub struct SqlParam {
    pub name: String,
    pub value: SqlValue,
}

impl View for SqlParam {
    type V = (Seq<char>, SqlValueView);

    open spec fn view(&self) -> (Seq<char>, SqlValueView) {
        (self.name@, self.value@)
    }
}

/// A statement to run: in the folder `folder`, against the database file
/// `file`, the SQL text `sql` with the named parameters `params`.
#[derive(Debug, Clone)]
pub struct DbStatement {
    pub folder: String,
    pub file: String,
    pub sql: String,
    pub params: Vec<SqlParam>,
}

/// The mathematical value of a statement.
pub struct DbStatementView {
    pub folder: Seq<char>,
    pub file: Seq<char>,
    pub sql: Seq<char>,
    pub params: Seq<(Seq<char>, SqlValueView)>,
}

impl View for DbStatement {
    type V = DbStatementView;

    open spec fn view(&self) -> DbStatementView {
        DbStatementView {
            folder: self.folder@,
            file: self.file@,
            sql: self.sql@,
            params: self.params@.map_values(|p: SqlParam| p@),
        }
    }
}

/// The statement with the given parts.
pub open spec fn stmt(
    folder: Seq<char>,
    file: Seq<char>,
    sql: Seq<char>,
    params: Seq<(Seq<char>, SqlValueView)>,
) -> DbStatementView {
    DbStatementView { folder, file, sql, params }
}

/// The next step of an operation on the backing store: run a statement that
/// reads one number (a count or a stored code), run a statement that writes
/// (whose outcome is the number of rows it changed), run a statement that
/// reads rows (whose outcome is the number of rows read; the rows themselves
/// are handed to the operation as the input it names for them), or finish
/// with a result. The outcomes of the steps taken so far are handed back to
/// the operation, in order, to learn its next step.
#[derive(Debug)]
pub enum DbStep<T> {
    Query(DbStatement),
    Execute(DbStatement),
    Read(DbStatement),
    Done(T),
}

/// A statement without parameters.
pub fn plain_statement(folder: &str, file: &str, sql: &str) -> (r: DbStatement)
    ensures
        r@ == stmt(folder@, file@, sql@, Seq::empty()),
{
    let r = DbStatement {
        folder: String::from_str(folder),
        file: String::from_str(file),
        sql: String::from_str(sql),
        params: Vec::new(),
    };
    assert(r@.params =~= Seq::<(Seq<char>, SqlValueView)>::empty());
    r
}

/// A text parameter.
pub fn text_param(name: &str, value: &str) -> (r: SqlParam)
    ensures
        r@ == (name@, SqlValueView::Text(value@)),
{
    SqlParam { name: String::from_str(name), value: SqlValue::Text(String::from_str(value)) }
}

/// An integer parameter.
pub fn int_param(name: &str, value: i64) -> (r: SqlParam)
    ensures
        r@ == (name@, SqlValueView::Int(value as int)),
{
    SqlParam { name: String::from_str(name), value: SqlValue::Int(value) }
}

/// A byte parameter.
pub fn blob_param(name: &str, value: Vec<u8>) -> (r: SqlParam)
    ensures
        r@ == (name@, SqlValueView::Blob(value@)),
{
    SqlParam { name: String::from_str(name), value: SqlValue::Blob(value) }
}

/// Adds a parameter to a statement.
pub fn with_param(st: DbStatement, p: SqlParam) -> (r: DbStatement)
    ensures
        r@ == stmt(st@.folder, st@.file, st@.sql, st@.params.push(p@)),
{
    let mut s = st;
    let ghost before = s.params@;
    s.params.push(p);
    assert(s.params@.map_values(|q: SqlParam| q@) =~= before.map_values(|q: SqlParam| q@).push(p@));
    s
}

/// Whether a count read back from the store is above zero: the test of
/// every `SELECT COUNT(*)` statement that asks whether rows exist.
pub fn has_any_rows(count: u64) -> (r: bool)
    ensures
        r == (count > 0),
{
    count > 0
}

} // verus!
