use rcd::statement::{DbStep, SqlValue};
use rcd::partial_data::{
    delete_result, execute_delete, execute_update_overwrite, row_columns_for, row_columns_statement, row_ids_statement, update_result,
};
use rcd::query_parser::{get_table_name, get_table_names};
use rcd::rcd_enum::{ColumnType, DatabaseType};
use rcd::read_result::{
    cell_text, execute_read_on_connection_for_row, get_all_user_table_names_in_db,
    get_scalar_as_string, get_scalar_as_u32, get_scalar_as_vec_u8, i64_to_text, row_hash_statement,
    execute_read_on_connection, SqlCell,
};
use rcd::schema::{get_db_schema, parse_bool};
use rcd::table::{Column, Data, Row, Table, Value};

#[test]
fn cells_read_as_text() {
    assert_eq!(cell_text(&SqlCell::Integer(-42)), "-42");
    assert_eq!(cell_text(&SqlCell::Integer(7)), "7");
    assert_eq!(cell_text(&SqlCell::Text(String::from("abc"))), "abc");
    assert_eq!(cell_text(&SqlCell::Real(String::from("1.5"))), "1.5");
    assert_eq!(cell_text(&SqlCell::Blob(vec![1])), "");
    assert_eq!(cell_text(&SqlCell::Null), "");
    assert_eq!(i64_to_text(i64::MIN), "-9223372036854775808");
    assert_eq!(i64_to_text(i64::MAX), "9223372036854775807");
}

fn two_columns() -> Vec<(String, String)> {
    vec![(String::from("ID"), String::from("INT")), (String::from("NAME"), String::from("TEXT"))]
}

#[test]
fn tables_from_results() {
    let rows = vec![
        vec![SqlCell::Integer(1), SqlCell::Text(String::from("a"))],
        vec![SqlCell::Integer(2), SqlCell::Null],
    ];
    let t = execute_read_on_connection(&two_columns(), &rows);
    assert_eq!(t.cols.len(), 2);
    assert_eq!(t.cols[1].name, "NAME");
    assert_eq!(t.cols[1].idx, 1);
    assert_eq!(t.rows.len(), 2);
    assert_eq!(t.rows[0].vals[1].data.as_ref().unwrap().data_string, "a");
    assert_eq!(t.rows[1].vals[0].data.as_ref().unwrap().data_string, "2");
    assert_eq!(t.rows[1].vals[1].col.name, "NAME");
    let c = t.get_column_by_index(1).unwrap();
    assert_eq!(c.data_type, "TEXT");
}

#[test]
fn rows_read_with_their_hash() {
    let rows = vec![vec![SqlCell::Integer(1), SqlCell::Text(String::from("a"))]];
    let hashes = vec![vec![9u8, 9]];
    let row = execute_read_on_connection_for_row("sales.db", "orders", 4, &two_columns(), &rows, &hashes)
        .unwrap();
    assert_eq!(row.row_id, 4);
    assert_eq!(row.values.len(), 2);
    assert_eq!(row.values[0].string_value, "1");
    assert_eq!(row.values[1].value, b"a".to_vec());
    assert_eq!(row.values[1].column.as_ref().unwrap().column_type, 9);
    assert_eq!(row.values[1].column.as_ref().unwrap().column_id, "1");
    assert_eq!(row.hash, vec![9, 9]);
    let unknown = vec![(String::from("X"), String::from("BLOB"))];
    assert!(execute_read_on_connection_for_row("d", "t", 1, &unknown, &vec![], &vec![]).is_none());
    assert_eq!(row_hash_statement("orders_META", 4), "SELECT HASH FROM orders_META WHERE ROW_ID = 4");
}

#[test]
fn user_table_names() {
    let rows = vec![vec![SqlCell::Text(String::from("orders"))], vec![SqlCell::Text(String::from("items"))]];
    let cols = vec![(String::from("name"), String::new())];
    let t = execute_read_on_connection(&cols, &rows);
    assert_eq!(get_all_user_table_names_in_db(&t), vec![String::from("orders"), String::from("items")]);
}

#[test]
fn scalar_reads() {
    assert_eq!(get_scalar_as_u32(&vec![]), 0);
    assert_eq!(get_scalar_as_u32(&vec![3, 5]), 5);
    assert_eq!(get_scalar_as_string(&vec![String::from("a"), String::from("b")]), "b");
    assert_eq!(get_scalar_as_vec_u8(&vec![vec![1], vec![2]]), Some(vec![1]));
    assert_eq!(get_scalar_as_vec_u8(&vec![]), None);
}

fn pragma_value(col: &str, text: &str) -> Value {
    Value {
        data: Some(Data { data_string: text.to_string(), data_byte: Vec::new() }),
        col: Column {
            name: col.to_string(),
            is_nullable: false,
            idx: 0,
            data_type: String::new(),
            is_primary_key: false,
        },
    }
}

#[test]
fn database_schemas() {
    let mut schema = Table::new();
    let mut row = Row::new();
    row.add_value(pragma_value("columnId", "2"));
    row.add_value(pragma_value("name", "ID"));
    row.add_value(pragma_value("type", "INT"));
    row.add_value(pragma_value("NotNull", "true"));
    row.add_value(pragma_value("IsPK", "false"));
    row.add_value(pragma_value("dflt_value", "x"));
    schema.add_row(row);
    let tables = vec![(String::from("T1"), String::from("orders"))];
    let s = get_db_schema(
        "sales.db",
        "D1",
        &tables,
        &vec![rcd::rcd_enum::LogicalStoragePolicy::Mirror],
        &vec![schema],
    )
    .unwrap();
    assert_eq!(s.tables.len(), 1);
    let t = &s.tables[0];
    assert_eq!(t.table_name, "orders");
    assert_eq!(t.logical_storage_policy, 4);
    assert_eq!(t.columns.len(), 1);
    let c = &t.columns[0];
    assert_eq!(c.ordinal, 2);
    assert_eq!(c.column_name, "ID");
    assert_eq!(c.column_type, 1);
    assert!(c.is_nullable);
    assert!(!c.is_primary_key);
    assert_eq!(c.table_id, "T1");

    let mut bad = Table::new();
    let mut bad_row = Row::new();
    bad_row.add_value(pragma_value("type", "VARCHAR(10)"));
    bad.add_row(bad_row);
    assert!(get_db_schema("s", "D", &tables, &vec![rcd::rcd_enum::LogicalStoragePolicy::Mirror], &vec![bad]).is_none());
    assert_eq!(parse_bool("true"), Some(true));
    assert_eq!(parse_bool("1"), None);
}

#[test]
fn rows_touched_by_a_change() {
    assert_eq!(row_ids_statement("orders", "ID = 1"), "SELECT ROWID FROM orders WHERE ID = 1");
    assert_eq!(row_ids_statement("orders", ""), "SELECT ROWID FROM orders  ");
    let cols = row_columns_statement(&vec![String::from("A"), String::from("B")], "orders");
    assert_eq!(cols, "SELECT A,B FROM orders WHERE ROWID = :rid");
    assert_eq!(row_columns_for(&cols, 3), "SELECT A,B FROM orders WHERE ROWID = 3");
    let u = update_result(&vec![3, 4], &vec![77, 88]);
    assert!(u.is_successful);
    assert_eq!((u.row_id, u.data_hash), (3, 77));
    let d = delete_result(&vec![5, 6]);
    assert_eq!((d.row_id, d.data_hash), (5, 0));
}

#[test]
fn column_types_and_rows_sent_to_clients() {
    assert_eq!(ColumnType::try_parse("VARCHAR(25)"), Some(ColumnType::Varchar));
    assert_eq!(ColumnType::try_parse("BigInt"), Some(ColumnType::Int));
    assert_eq!(ColumnType::try_parse(""), Some(ColumnType::Unknown));
    assert_eq!(ColumnType::try_parse("blob"), None);
    let rows = vec![vec![SqlCell::Integer(1), SqlCell::Text(String::new())]];
    let mut t = execute_read_on_connection(&two_columns(), &rows);
    t.set_name("orders");
    let sent = t.to_cdata_rows().unwrap();
    assert_eq!(sent.len(), 1);
    assert_eq!(sent[0].table_name, "orders");
    assert_eq!(sent[0].values[0].value, b"1".to_vec());
    assert!(!sent[0].values[0].is_null_value);
    assert!(sent[0].values[1].is_null_value);
    assert_eq!(sent[0].values[0].column.as_ref().unwrap().column_type, 1);
    assert_eq!(t.cols[0].try_data_type_to_enum_u32(), Some(1));
}

#[test]
fn table_names_of_statements() {
    let names = get_table_names("SELECT * FROM a JOIN b ON a.x = b.x", DatabaseType::Sqlite);
    assert_eq!(names, vec![String::from("a"), String::from("b")]);
    assert_eq!(get_table_name("INSERT INTO t VALUES (1)", DatabaseType::Sqlite), "t");
    assert_eq!(get_table_name("SELECT 1", DatabaseType::Sqlite), "");
}

#[test]
fn table_names_of_comma_lists_and_quoted_names() {
    let names = get_table_names("SELECT * FROM a, b WHERE a.x = b.x", DatabaseType::Sqlite);
    assert_eq!(names, vec![String::from("a"), String::from("b")]);
    let names = get_table_names("SELECT * FROM a AS x, b y, c", DatabaseType::Sqlite);
    assert_eq!(names, vec![String::from("a"), String::from("b"), String::from("c")]);
    let names = get_table_names("INSERT INTO t (c1, c2) VALUES (1, 2)", DatabaseType::Sqlite);
    assert_eq!(names, vec![String::from("t")]);
    assert_eq!(get_table_name("SELECT \"into\" FROM t", DatabaseType::Sqlite), "t");
    assert_eq!(get_table_name("SELECT * FROM \"my table\"", DatabaseType::Sqlite), "my table");
    assert_eq!(get_table_name("SELECT 'from x' FROM y", DatabaseType::Sqlite), "y");
}

#[test]
fn deletes_sent_to_partial_databases() {
    let c = rcd::dbi::DbiConfigSqlite { root_folder: String::from("/p"), rcd_db_name: String::from("rcd.db") };
    let ids = vec![4u32, 9];
    let cmd = "DELETE FROM orders WHERE x = 1";
    let step = |answers: Vec<u64>| execute_delete("sales.db", "orders", cmd, "x = 1", "orders_META", &c, &ids, &answers);
    match step(vec![]) {
        DbStep::Read(st) => {
            assert_eq!(st.file, "sales.dbpart");
            assert_eq!(st.sql, "SELECT ROWID FROM orders WHERE x = 1");
        }
        _ => panic!("expected the row ids to be read"),
    }
    match step(vec![2]) {
        DbStep::Execute(st) => assert_eq!(st.sql, cmd),
        _ => panic!("expected the delete"),
    }
    match step(vec![2, 2]) {
        DbStep::Execute(st) => {
            assert_eq!(st.sql, "DELETE FROM orders_META WHERE ROW_ID = :rid");
            assert!(matches!(st.params[0].value, SqlValue::Int(4)));
        }
        _ => panic!("expected the first hash to be forgotten"),
    }
    match step(vec![2, 2, 1]) {
        DbStep::Execute(st) => assert!(matches!(st.params[0].value, SqlValue::Int(9))),
        _ => panic!("expected the second hash to be forgotten"),
    }
    match step(vec![2, 2, 1, 1]) {
        DbStep::Done(r) => assert_eq!((r.is_successful, r.row_id, r.data_hash), (true, 4, 0)),
        _ => panic!("expected the report"),
    }
}

#[test]
fn updates_sent_to_partial_databases() {
    let c = rcd::dbi::DbiConfigSqlite { root_folder: String::from("/p"), rcd_db_name: String::from("rcd.db") };
    let ids = vec![4u32];
    let cols = vec![String::from("A"), String::from("B")];
    let hashes = vec![77u64];
    let cmd = "UPDATE orders SET A = 1";
    let step = |answers: Vec<u64>| {
        execute_update_overwrite("sales.db", "orders", cmd, "", "orders_META", &c, &ids, &cols, &hashes, &answers)
    };
    match step(vec![]) {
        DbStep::Read(st) => assert_eq!(st.sql, "SELECT ROWID FROM orders  "),
        _ => panic!("expected the row ids to be read"),
    }
    match step(vec![1, 1]) {
        DbStep::Read(st) => assert_eq!(st.sql, "select NAME from pragma_table_info(\"orders\") as tblInfo;"),
        _ => panic!("expected the column names to be read"),
    }
    match step(vec![1, 1, 2]) {
        DbStep::Read(st) => assert_eq!(st.sql, "SELECT A,B FROM orders WHERE ROWID = 4"),
        _ => panic!("expected the row to be read again"),
    }
    match step(vec![1, 1, 2, 1]) {
        DbStep::Execute(st) => {
            assert_eq!(st.sql, "UPDATE orders_META SET HASH = :hash WHERE ROW_ID = :rid");
            match &st.params[0].value {
                SqlValue::Blob(b) => assert_eq!(b, &77u64.to_ne_bytes().to_vec()),
                _ => panic!("expected the hash bytes"),
            }
        }
        _ => panic!("expected the hash to be recorded"),
    }
    match step(vec![1, 1, 2, 1, 1]) {
        DbStep::Done(r) => assert_eq!((r.row_id, r.data_hash), (4, 77)),
        _ => panic!("expected the report"),
    }
}

fn column_of_type(t: &str) -> Column {
    Column {
        name: String::from("c"),
        is_nullable: false,
        idx: 0,
        data_type: t.to_string(),
        is_primary_key: false,
    }
}

#[test]
fn declared_lengths_of_column_types() {
    assert_eq!(column_of_type("INT").try_data_type_len(), Some(0));
    assert_eq!(column_of_type("INT").data_type_len(), 0);
    assert_eq!(column_of_type("VARCHAR(25)").try_data_type_len(), None);
    assert_eq!(column_of_type("VARCHAR(25").try_data_type_len(), None);
    assert_eq!(column_of_type("\u{e9}\u{e9}\u{e9}(1)234").try_data_type_len(), Some(23));
    assert_eq!(column_of_type("\u{e9}\u{e9}\u{e9}(1)234").data_type_len(), 23);
}

#[test]
fn table_names_qualified_by_schema_and_with_names() {
    assert_eq!(get_table_names("SELECT * FROM main.asdf", DatabaseType::Sqlite), vec![String::from("asdf")]);
    assert_eq!(
        get_table_names("SELECT * FROM main.a AS x, \"main\".\"b\"", DatabaseType::Sqlite),
        vec![String::from("a"), String::from("b")]
    );
    assert_eq!(
        get_table_names("WITH c AS (SELECT * FROM a) SELECT * FROM c", DatabaseType::Sqlite),
        vec![String::from("a")]
    );
    assert_eq!(
        get_table_names("with C(x, y) as (select 1, 2) select * from c, t", DatabaseType::Sqlite),
        vec![String::from("t")]
    );
    assert_eq!(get_table_names("SELECT * FROM t -- , u", DatabaseType::Sqlite), vec![String::from("t")]);
    assert_eq!(get_table_names("SELECT * FROM /* u, */ t", DatabaseType::Sqlite), vec![String::from("t")]);
}
