//! The result of a read: a table of columns and rows of values, each value
//! held as text and as bytes.
use vstd::prelude::*;

use crate::rcd_enum::{column_type_of, spec_lowercase, ColumnType};
use crate::cdata::{ColumnSchema, Row as CRow, RowRemoteMetadata, RowValue};
use crate::guid::new_guid_text;
use crate::text::{parse_u32, seq_contains, u32_text_value};

verus! {

/// A value of a cell: its text and its bytes.
#[derive(Debug, Clone)]
pub struct Data {
    pub data_string: String,
    pub data_byte: Vec<u8>,
}

/// A cell of a row: its data, if any, and the column it belongs to.
#[derive(Debug, Clone)]
pub struct Value {
    pub data: Option<Data>,
    pub col: Column,
}

impl Value {
    /// Whether the cell holds no data.
    pub fn is_null(&self) -> (r: bool)
        ensures
            r == (self.data is None),
    {
        self.data.is_none()
    }
}

/// A row of a table.
#[derive(Debug)]
pub struct Row {
    pub vals: Vec<Value>,
}

impl Row {
    /// A row without values.
    pub fn new() -> (r: Self)
        ensures
            r.vals@ == Seq::<Value>::empty(),
    {
        Self { vals: Vec::new() }
    }

    /// Appends a value to the row.
    pub fn add_value(&mut self, value: Value)
        ensures
            final(self).vals@ == old(self).vals@.push(value),
    {
        self.vals.push(value);
    }
}

/// A column of a table.
#[derive(Clone, Debug)]
pub struct Column {
    pub name: String,
    pub is_nullable: bool,
    pub idx: usize,
    pub data_type: String,
    pub is_primary_key: bool,
}

/// The position of the first `c` in `s`, if any.
pub open spec fn first_index(s: Seq<char>, c: char) -> Option<int> {
    if exists|i: int| 0 <= i < s.len() && s[i] == c {
        Some(choose|i: int| 0 <= i < s.len() && s[i] == c && forall|j: int| 0 <= j < i ==> s[j] != c)
    } else {
        None
    }
}

/// The number of bytes that the first `i` characters of `s` take in UTF-8,
/// as a `usize`: the byte position that `str::find` reports for position
/// `i`.
#[verifier::opaque]
pub open spec fn byte_position(s: Seq<char>, i: int) -> int {
    (vstd::utf8::encode_utf8(s.subrange(0, i)).len() as usize) as int
}

/// The characters of `s` from position `a` up to position `b`, both cut
/// to the length of `s`; nothing where `b` is not after `a`.
pub open spec fn char_range(s: Seq<char>, a: int, b: int) -> Seq<char> {
    if b <= a {
        Seq::empty()
    } else {
        let n = s.len() as int;
        let x = if a < n { a } else { n };
        let y = if b < n { b } else { n };
        s.subrange(x, y)
    }
}

/// The length that a declared type such as `VARCHAR(25)` declares: none
/// declared (0) where the type has no `(`; otherwise the number written by
/// the characters taken between the byte positions of the first `(` and of
/// the first `)`, each used as a character position, if the type has a `)`
/// and those characters read as a number.
#[verifier::opaque]
pub open spec fn declared_length(s: Seq<char>) -> Option<u32> {
    match first_index(s, '(') {
        None => Some(0),
        Some(a) => match first_index(s, ')') {
            None => None,
            Some(b) => u32_text_value(char_range(s, byte_position(s, a), byte_position(s, b))),
        },
    }
}

/// Calls `substring::Substring::substring`: the characters of `s` from
/// position `start` up to position `end`, both cut to the length of `s`,
/// and nothing where `end` is not after `start` (the crate takes the byte
/// offsets of those character positions from `char_indices`, or the
/// string's length past its end).
#[verifier::external_body]
fn char_substring(s: &str, start: usize, end: usize) -> (r: String)
    ensures
        r@ == char_range(s@, start as int, end as int),
{
    substring::Substring::substring(s, start, end).to_string()
}

fn byte_offset(s: &str, i: usize) -> (r: usize)
    requires
        i <= s@.len(),
    ensures
        r == byte_position(s@, i as int),
{
    proof {
        reveal(byte_position);
    }
    s.substring_char(0, i).len()
}

pub(crate) fn length_of_declared_type(s: &str) -> (r: Option<u32>)
    ensures
        r == declared_length(s@),
{
    proof {
        reveal(declared_length);
    }
    match first_position(s, '(') {
        None => Some(0),
        Some(a) => match first_position(s, ')') {
            None => None,
            Some(b) => {
                let start = byte_offset(s, a);
                let end = byte_offset(s, b);
                let text = char_substring(s, start, end);
                parse_u32(text.as_str())
            },
        },
    }
}

fn first_position(s: &str, c: char) -> (r: Option<usize>)
    ensures
        match r {
            Some(i) => first_index(s@, c) == Some(i as int) && i < s@.len(),
            None => first_index(s@, c) is None,
        },
{
    let n = s.unicode_len();
    let mut i: usize = 0;
    while i < n
        invariant
            n == s@.len(),
            i <= n,
            forall|j: int| 0 <= j < i ==> s@[j] != c,
        decreases n - i,
    {
        if s.get_char(i) == c {
            let ghost k = first_index(s@, c)->0;
            assert(s@[i as int] == c);
            assert(k == i as int) by {
                if k < i {
                } else if k > i {
                }
            }
            return Some(i);
        }
        i = i + 1;
    }
    None
}

impl Column {
    /// The code of the column type that the column's declared type names.
    /// Reading a declared type that names no column type is refused.
    pub fn data_type_to_enum_u32(&self) -> (r: u32)
        requires
            column_type_of(spec_lowercase(self.data_type@)) is Some,
        ensures
            r == column_type_of(spec_lowercase(self.data_type@)).unwrap().code(),
    {
        let ct = ColumnType::try_parse(self.data_type.as_str());
        match ct {
            Some(t) => ColumnType::to_u32(t),
            None => 0,
        }
    }

    /// The length declared with the column's type (see `declared_length`);
    /// a type whose length text does not read as a number is refused.
    pub fn data_type_len(&self) -> (r: u32)
        requires
            declared_length(self.data_type@) is Some,
        ensures
            r == declared_length(self.data_type@)->0,
    {
        match length_of_declared_type(self.data_type.as_str()) {
            Some(n) => n,
            None => 0,
        }
    }

    /// The length declared with the column's type, if it reads as one (see
    /// `data_type_len`).
    pub fn try_data_type_len(&self) -> (r: Option<u32>)
        ensures
            r == declared_length(self.data_type@),
    {
        length_of_declared_type(self.data_type.as_str())
    }

    /// The code of the column type that the column's declared type names,
    /// if it names one (see `data_type_to_enum_u32`).
    pub fn try_data_type_to_enum_u32(&self) -> (r: Option<u32>)
        ensures
            r is Some <==> column_type_of(spec_lowercase(self.data_type@)) is Some,
            r matches Some(c) ==> c == column_type_of(spec_lowercase(self.data_type@))->0.code(),
    {
        match ColumnType::try_parse(self.data_type.as_str()) {
            Some(_) => Some(self.data_type_to_enum_u32()),
            None => None,
        }
    }
}

/// A table read from a database.
#[derive(Debug)]
pub struct Table {
    pub num_cols: usize,
    pub name: String,
    pub cols: Vec<Column>,
    pub rows: Vec<Row>,
}

/// The first position in `cols` of a column with index `idx`, if any.
pub open spec fn first_column_with_index(cols: Seq<Column>, idx: usize) -> Option<int> {
    if exists|i: int| 0 <= i < cols.len() && cols[i].idx == idx {
        Some(
            choose|i: int|
                0 <= i < cols.len() && cols[i].idx == idx && forall|j: int|
                    0 <= j < i ==> cols[j].idx != idx,
        )
    } else {
        None
    }
}

impl Table {
    /// An empty table without a name.
    pub fn new() -> (r: Self)
        ensures
            r.num_cols == 0,
            r.name@ == Seq::<char>::empty(),
            r.cols@ == Seq::<Column>::empty(),
            r.rows@.len() == 0,
    {
        Self { num_cols: 0, name: String::new(), cols: Vec::new(), rows: Vec::new() }
    }

    /// Names the table.
    pub fn set_name(&mut self, name: &str)
        ensures
            final(self).name@ == name@,
            final(self).num_cols == old(self).num_cols,
            final(self).cols == old(self).cols,
            final(self).rows == old(self).rows,
    {
        self.name = String::from_str(name);
    }

    /// Records the number of columns.
    pub fn set_num_cols(&mut self, total_cols: usize)
        ensures
            final(self).num_cols == total_cols,
            final(self).name == old(self).name,
            final(self).cols == old(self).cols,
            final(self).rows == old(self).rows,
    {
        self.num_cols = total_cols;
    }

    /// The recorded number of columns.
    pub fn num_cols(&self) -> (r: usize)
        ensures
            r == self.num_cols,
    {
        self.num_cols
    }

    /// Appends a column.
    pub fn add_column(&mut self, column: Column)
        ensures
            final(self).cols@ == old(self).cols@.push(column),
            final(self).num_cols == old(self).num_cols,
            final(self).name == old(self).name,
            final(self).rows == old(self).rows,
    {
        self.cols.push(column);
    }

    /// Appends a row.
    pub fn add_row(&mut self, row: Row)
        ensures
            final(self).rows@ == old(self).rows@.push(row),
            final(self).num_cols == old(self).num_cols,
            final(self).name == old(self).name,
            final(self).cols == old(self).cols,
    {
        self.rows.push(row);
    }

    /// The first column whose index is `idx`, if any.
    pub fn get_column_by_index(&self, idx: usize) -> (r: Option<Column>)
        ensures
            match first_column_with_index(self.cols@, idx) {
                Some(i) => r == Some(self.cols@[i]),
                None => r is None,
            },
    {
        let mut i: usize = 0;
        while i < self.cols.len()
            invariant
                forall|j: int| 0 <= j < i ==> self.cols@[j].idx != idx,
            decreases self.cols.len() - i,
        {
            let col = &self.cols[i];
            if col.idx == idx {
                let found = Column {
                    name: col.name.clone(),
                    is_nullable: col.is_nullable,
                    idx: col.idx,
                    data_type: col.data_type.clone(),
                    is_primary_key: col.is_primary_key,
                };
                proof {
                    let k = first_column_with_index(self.cols@, idx)->0;
                    assert(k == i as int) by {
                        if k < i {
                        } else if k > i {
                        }
                    }
                }
                return Some(found);
            }
            i = i + 1;
        }
        None
    }
}

/// Every value of every row holds data.
pub open spec fn rows_hold_data(rows: Seq<Row>) -> bool {
    forall|i: int, k: int|
        0 <= i < rows.len() && 0 <= k < rows[i].vals@.len() ==> (#[trigger] rows[i].vals@[k]).data is Some
}

/// The declared type of the column of every value of every row names a
/// column type, and the length it declares reads as a number (see
/// `declared_length`).
pub open spec fn rows_types_readable(rows: Seq<Row>) -> bool {
    forall|i: int, k: int|
        0 <= i < rows.len() && 0 <= k < rows[i].vals@.len() ==> {
            let c = (#[trigger] rows[i].vals@[k]).col;
            column_type_of(spec_lowercase(c.data_type@)) is Some && declared_length(c.data_type@) is Some
        }
}

/// `c` is the value `v` sent to a client: under a schema of its column (its
/// name, the code of its type, its declared length, fresh column and table ids,
/// whether it is nullable, its index as ordinal, whether it is a primary
/// key), with the value's bytes, or the bytes of its text where it has
/// none, null exactly when there are no bytes, and the value's text.
pub open spec fn sent_value(v: Value, c: RowValue) -> bool {
    let col = v.col;
    let d = v.data->0;
    &&& c.column matches Some(s) && {
        &&& s.column_name@ == col.name@
        &&& s.column_type == column_type_of(spec_lowercase(col.data_type@))->0.code()
        &&& s.column_length == declared_length(col.data_type@)->0
        &&& s.column_id@.len() == 36
        &&& s.is_nullable == col.is_nullable
        &&& s.ordinal == col.idx as u32
        &&& s.table_id@.len() == 36
        &&& s.is_primary_key == col.is_primary_key
    }
    &&& c.value@ == (if d.data_byte@.len() > 0 {
        d.data_byte@
    } else {
        vstd::utf8::encode_utf8(d.data_string@)
    })
    &&& c.is_null_value == (c.value@.len() == 0)
    &&& c.string_value@ == d.data_string@
}

/// `c` is row `i` of the table named `name`, sent to a client: numbered
/// `i`, with each value sent (see `sent_value`), not remoteable, with
/// remote metadata that is all false, and no hash.
pub open spec fn sent_row(r: Row, i: int, name: Seq<char>, c: CRow) -> bool {
    &&& c.row_id == i
    &&& c.table_name@ == name
    &&& c.database_name@.len() == 0
    &&& c.values@.len() == r.vals@.len()
    &&& forall|k: int| 0 <= k < r.vals@.len() ==> sent_value(r.vals@[k], #[trigger] c.values@[k])
    &&& !c.is_remoteable
    &&& c.remote_metadata matches Some(m) && !m.is_remote_out_of_sync_with_host
        && !m.is_hash_out_of_sync_with_host && !m.is_remote_deleted && !m.is_local_deleted
    &&& c.hash@.len() == 0
}

fn send_value(v: &Value) -> (r: RowValue)
    requires
        v.data is Some,
        column_type_of(spec_lowercase(v.col.data_type@)) is Some,
        declared_length(v.col.data_type@) is Some,
    ensures
        sent_value(*v, r),
{
    let col = &v.col;
    let ordinal = #[verifier::truncate] (col.idx as u32);
    let schema = ColumnSchema {
        column_name: col.name.clone(),
        column_type: col.data_type_to_enum_u32(),
        column_length: col.data_type_len(),
        column_id: new_guid_text(),
        is_nullable: col.is_nullable,
        ordinal,
        table_id: new_guid_text(),
        is_primary_key: col.is_primary_key,
    };
    let (bytes, text) = match &v.data {
        Some(d) => {
            let b = if d.data_byte.len() > 0 {
                let b = d.data_byte.clone();
                assert(b@ =~= d.data_byte@);
                b
            } else {
                d.data_string.as_str().as_bytes_vec()
            };
            (b, d.data_string.clone())
        },
        None => (Vec::new(), String::new()),
    };
    let is_null = bytes.len() == 0;
    RowValue { column: Some(schema), is_null_value: is_null, value: bytes, string_value: text }
}

impl Table {
    /// The rows of the table as they are sent to a client, numbered from 0
    /// (see `sent_row`); none where a column's declared type names no
    /// column type or declares a length (the conversion stops there). A
    /// value without data is refused, and so is a table with more rows than
    /// a `u32` numbers.
    pub fn to_cdata_rows(&self) -> (r: Option<Vec<CRow>>)
        requires
            rows_hold_data(self.rows@),
            self.rows@.len() <= u32::MAX,
        ensures
            r is Some <==> rows_types_readable(self.rows@),
            r matches Some(v) ==> v@.len() == self.rows@.len() && forall|i: int|
                0 <= i < v@.len() ==> sent_row(self.rows@[i], i, self.name@, #[trigger] v@[i]),
    {
        let mut out: Vec<CRow> = Vec::new();
        let mut idx: u32 = 0;
        while (idx as usize) < self.rows.len()
            invariant
                rows_hold_data(self.rows@),
                self.rows@.len() <= u32::MAX,
                idx <= self.rows@.len(),
                out@.len() == idx,
                forall|x: int, k: int|
                    0 <= x < idx && 0 <= k < self.rows@[x].vals@.len() ==> {
                        let c = (#[trigger] self.rows@[x].vals@[k]).col;
                        column_type_of(spec_lowercase(c.data_type@)) is Some && declared_length(c.data_type@) is Some
                    },
                forall|x: int| 0 <= x < idx ==> sent_row(self.rows@[x], x, self.name@, #[trigger] out@[x]),
            decreases self.rows@.len() - idx,
        {
            let row = &self.rows[idx as usize];
            let mut values: Vec<RowValue> = Vec::new();
            let mut k: usize = 0;
            while k < row.vals.len()
                invariant
                    rows_hold_data(self.rows@),
                    idx < self.rows@.len(),
                    row.vals@ == self.rows@[idx as int].vals@,
                    k <= row.vals@.len(),
                    values@.len() == k,
                    forall|y: int| 0 <= y < k ==> {
                        let c = (#[trigger] row.vals@[y]).col;
                        column_type_of(spec_lowercase(c.data_type@)) is Some && declared_length(c.data_type@) is Some
                    },
                    forall|y: int| 0 <= y < k ==> sent_value(row.vals@[y], #[trigger] values@[y]),
                decreases row.vals.len() - k,
            {
                let v = &row.vals[k];
                assert(v.data is Some) by {
                    assert(self.rows@[idx as int].vals@[k as int].data is Some);
                }
                let known = ColumnType::try_parse(v.col.data_type.as_str());
                let length = v.col.try_data_type_len();
                if known.is_none() || length.is_none() {
                    proof {
                        assert(!rows_types_readable(self.rows@)) by {
                            assert(self.rows@[idx as int].vals@[k as int] == *v);
                        }
                    }
                    return None;
                }
                values.push(send_value(v));
                k = k + 1;
            }
            let c_row = CRow {
                row_id: idx,
                table_name: self.name.clone(),
                database_name: String::new(),
                values,
                is_remoteable: false,
                remote_metadata: Some(
                    RowRemoteMetadata {
                        is_remote_out_of_sync_with_host: false,
                        is_hash_out_of_sync_with_host: false,
                        is_remote_deleted: false,
                        is_local_deleted: false,
                    },
                ),
                hash: Vec::new(),
            };
            out.push(c_row);
            idx = idx + 1;
        }
        Some(out)
    }
}

} // verus!
