use rcd::dbi::DbiConfigSqlite;
use rcd::rcd_db::{
    configure_admin, configure_rcd_db, generate_and_get_host_info, verify_host_by_id,
    verify_host_by_name,
};
use rcd::rcd_enum::{
    ColumnType, ContractStatus, DatabaseType, LogicalStoragePolicy, RcdDbError,
    RcdGenerateContractError, RemoteDeleteBehavior,
};
use rcd::sql_text::{GET_HOST_INFO, HOST_INFO_COUNT};
use rcd::sqlite_store::{
    add_participant, cooperative_tables, get_cooperative_tables, has_cooperative_tables, check_contract_policies, enable_coooperative_features,
    get_logical_storage_policy, get_remote_status_for_tables, get_row_from_partial_database,
    get_table_col_names_with_data_type_as_string, partial_db_file_name,
    set_logical_storage_policy,
};
use rcd::statement::{DbStep, SqlValue};
use rcd::text::{parse_u32, replace, u32_to_text, u64_to_text};

fn config() -> DbiConfigSqlite {
    DbiConfigSqlite { root_folder: String::from("/data"), rcd_db_name: String::from("rcd.db") }
}

#[test]
fn replace_changes_every_occurrence() {
    assert_eq!(replace("a :x b :x", ":x", "1"), "a 1 b 1");
    assert_eq!(replace("aaa", "aa", "b"), "ba");
    assert_eq!(replace("none", ":x", "1"), "none");
}

#[test]
fn numbers_are_written_in_decimal() {
    assert_eq!(u64_to_text(0), "0");
    assert_eq!(u64_to_text(1234567890), "1234567890");
    assert_eq!(u32_to_text(u32::MAX), "4294967295");
}

#[test]
fn numbers_read_back() {
    assert_eq!(parse_u32("42"), Some(42));
    assert_eq!(parse_u32("+7"), Some(7));
    assert_eq!(parse_u32("4294967295"), Some(u32::MAX));
    assert_eq!(parse_u32("4294967296"), None);
    assert_eq!(parse_u32(""), None);
    assert_eq!(parse_u32("+"), None);
    assert_eq!(parse_u32("-1"), None);
    assert_eq!(parse_u32("1a"), None);
    for n in [0u32, 9, 10, 65535, u32::MAX] {
        assert_eq!(parse_u32(&u32_to_text(n)), Some(n));
    }
}

#[test]
fn partial_database_file_names() {
    assert_eq!(partial_db_file_name("sales.db"), "sales.dbpart");
    assert_eq!(partial_db_file_name("sales"), "sales.dbpart");
}

#[test]
fn policy_lookup_steps() {
    let c = config();
    match get_logical_storage_policy("sales.db", "orders", &c, &vec![]) {
        DbStep::Query(st) => {
            assert_eq!(st.folder, "/data");
            assert_eq!(st.file, "sales.db");
            assert_eq!(
                st.sql,
                "SELECT count(*) AS TABLECOUNT FROM sqlite_master WHERE type='table' AND name='orders'"
            );
        }
        _ => panic!("expected a count of the table"),
    }
    match get_logical_storage_policy("sales.db", "orders", &c, &vec![0]) {
        DbStep::Done(Err(RcdDbError::TableNotFound(m))) => {
            assert_eq!(m, "table orders not found in db sales.db")
        }
        _ => panic!("expected a missing table"),
    }
    match get_logical_storage_policy("sales.db", "orders", &c, &vec![1, 0]) {
        DbStep::Done(Ok(p)) => assert_eq!(p, LogicalStoragePolicy::NoPolicy),
        _ => panic!("expected no policy"),
    }
    match get_logical_storage_policy("sales.db", "orders", &c, &vec![1, 1, 3]) {
        DbStep::Done(Ok(p)) => assert_eq!(p, LogicalStoragePolicy::Shared),
        _ => panic!("expected the recorded policy"),
    }
}

#[test]
fn policy_read_back_after_set() {
    let c = config();
    let policy = LogicalStoragePolicy::Mirror;
    let written = match set_logical_storage_policy("sales.db", "orders", policy, &c, &vec![1, 0]) {
        DbStep::Execute(st) => st.sql,
        _ => panic!("expected a write of the policy"),
    };
    assert!(written.contains("'orders'"));
    assert!(written.contains("4"));
    match get_logical_storage_policy("sales.db", "orders", &c, &vec![1, 1, 4]) {
        DbStep::Done(Ok(p)) => assert_eq!(p, policy),
        _ => panic!("expected the policy that was set"),
    }
}

#[test]
fn setting_a_policy_on_a_missing_table_is_refused() {
    let c = config();
    match set_logical_storage_policy("sales.db", "nope", LogicalStoragePolicy::Shared, &c, &vec![0]) {
        DbStep::Done(Err(RcdDbError::TableNotFound(m))) => assert_eq!(m, "table nope not in sales.db"),
        _ => panic!("expected a missing table"),
    }
    match set_logical_storage_policy("sales.db", "t", LogicalStoragePolicy::Shared, &c, &vec![1, 1, 1, 5]) {
        DbStep::Done(Ok(true)) => {}
        _ => panic!("expected success"),
    }
}

#[test]
fn duplicate_participant_is_not_added() {
    let c = config();
    match add_participant("sales.db", "bob", "127.0.0.1", 5000, &c, &vec![1]) {
        DbStep::Done(false) => {}
        _ => panic!("expected a refusal"),
    }
}

#[test]
fn new_participant_is_saved() {
    let c = config();
    match add_participant("sales.db", "bob", "127.0.0.1", 5000, &c, &vec![0]) {
        DbStep::Query(st) => {
            assert_eq!(st.sql, "SELECT COUNT(*) TOTALCOUNT FROM COOP_PARTICIPANT WHERE ALIAS = 'bob'")
        }
        _ => panic!("expected a second count"),
    }
    match add_participant("sales.db", "bob", "127.0.0.1", 5000, &c, &vec![0, 0]) {
        DbStep::Execute(st) => {
            assert_eq!(st.params.len(), 9);
            assert_eq!(st.params[0].name, ":internal_id");
            match &st.params[0].value {
                SqlValue::Text(id) => assert_eq!(id.len(), 36),
                _ => panic!("expected a text id"),
            }
            match &st.params[4].value {
                SqlValue::Text(port) => assert_eq!(port, "5000"),
                _ => panic!("expected the port as text"),
            }
            match &st.params[5].value {
                SqlValue::Int(status) => assert_eq!(*status, 1),
                _ => panic!("expected the status code"),
            }
        }
        _ => panic!("expected an insert"),
    }
    match add_participant("sales.db", "bob", "127.0.0.1", 5000, &c, &vec![0, 0, 1]) {
        DbStep::Done(true) => {}
        _ => panic!("expected success"),
    }
}

#[test]
fn cooperative_features_steps() {
    let c = config();
    let mut answers = Vec::new();
    for _ in 0..7 {
        match enable_coooperative_features("sales.db", &c, &answers) {
            DbStep::Execute(st) => assert!(st.sql.contains("CREATE TABLE IF NOT EXISTS")),
            _ => panic!("expected a table creation"),
        }
        answers.push(0);
    }
    match enable_coooperative_features("sales.db", &c, &answers) {
        DbStep::Query(st) => assert_eq!(st.sql, "SELECT COUNT(*) COUNT FROM COOP_DATA_HOST"),
        _ => panic!("expected a count of ids"),
    }
    answers.push(0);
    match enable_coooperative_features("sales.db", &c, &answers) {
        DbStep::Execute(st) => {
            assert_eq!(st.params.len(), 2);
            assert_eq!(st.params[1].name, ":database_name");
        }
        _ => panic!("expected the database id to be saved"),
    }
    answers.push(1);
    assert!(matches!(enable_coooperative_features("sales.db", &c, &answers), DbStep::Done(())));
    let mut with_id = vec![0; 7];
    with_id.push(1);
    assert!(matches!(enable_coooperative_features("sales.db", &c, &with_id), DbStep::Done(())));
}

#[test]
fn rcd_database_setup_steps() {
    let c = config();
    assert!(matches!(configure_rcd_db(&c, true, &vec![]), DbStep::Done(())));
    match configure_rcd_db(&c, false, &vec![]) {
        DbStep::Execute(st) => {
            assert_eq!(st.file, "rcd.db");
            assert!(st.sql.contains("CDS_USER"));
        }
        _ => panic!("expected the first table"),
    }
    match configure_rcd_db(&c, false, &vec![0; 8]) {
        DbStep::Query(st) => assert!(st.sql.contains("CDS_ROLE")),
        _ => panic!("expected a count of roles"),
    }
    match configure_rcd_db(&c, false, &vec![0; 9]) {
        DbStep::Execute(st) => assert_eq!(st.sql, "INSERT INTO CDS_ROLE (ROLENAME) VALUES ('SysAdmin');"),
        _ => panic!("expected the role to be added"),
    }
    let mut with_role = vec![0; 8];
    with_role.push(1);
    assert!(matches!(configure_rcd_db(&c, false, &with_role), DbStep::Done(())));
}

#[test]
fn admin_configuration_is_idempotent() {
    let c = config();
    let hash = vec![1u8, 2, 3];
    assert!(matches!(configure_admin("tester", &hash, &c, &vec![1]), DbStep::Query(_)));
    assert!(matches!(configure_admin("tester", &hash, &c, &vec![1, 1]), DbStep::Done(())));
    match configure_admin("tester", &hash, &c, &vec![0]) {
        DbStep::Execute(st) => {
            assert_eq!(st.params.len(), 2);
            match &st.params[1].value {
                SqlValue::Blob(b) => assert_eq!(b, &hash),
                _ => panic!("expected the hash"),
            }
        }
        _ => panic!("expected a new login"),
    }
    assert!(matches!(configure_admin("tester", &hash, &c, &vec![0, 1, 0]), DbStep::Execute(_)));
}

#[test]
fn host_information_is_generated_once() {
    let c = config();
    match generate_and_get_host_info("h", &vec![9], &c, &vec![]) {
        DbStep::Query(st) => assert_eq!(st.sql, HOST_INFO_COUNT),
        _ => panic!("expected a count"),
    }
    match generate_and_get_host_info("h", &vec![9], &c, &vec![1]) {
        DbStep::Done(st) => assert_eq!(st.sql, GET_HOST_INFO),
        _ => panic!("expected the read of the host information"),
    }
    match generate_and_get_host_info("h", &vec![9], &c, &vec![0]) {
        DbStep::Execute(st) => assert_eq!(st.params.len(), 3),
        _ => panic!("expected an insert"),
    }
}

#[test]
fn hosts_are_verified_by_their_last_token() {
    assert!(verify_host_by_id(&vec![1, 2], &vec![vec![0], vec![1, 2]]));
    assert!(!verify_host_by_id(&vec![0], &vec![vec![0], vec![1, 2]]));
    assert!(!verify_host_by_id(&vec![0], &vec![]));
    assert!(verify_host_by_name(&vec![7], &vec![vec![7]]));
}

#[test]
fn contract_needs_a_policy_on_every_table() {
    let c = config();
    let all_set = vec![
        (String::from("a"), LogicalStoragePolicy::HostOnly),
        (String::from("b"), LogicalStoragePolicy::Shared),
    ];
    assert!(matches!(check_contract_policies("sales.db", &all_set, &c), Ok(true)));
    let missing = vec![
        (String::from("a"), LogicalStoragePolicy::NoPolicy),
        (String::from("b"), LogicalStoragePolicy::Shared),
        (String::from("c"), LogicalStoragePolicy::NoPolicy),
    ];
    match check_contract_policies("sales.db", &missing, &c) {
        Err(RcdGenerateContractError::NotAllTablesSet(m)) => {
            assert_eq!(m, "policy not set for table a, table c, ")
        }
        _ => panic!("expected a refusal"),
    }
}

#[test]
fn rows_of_partial_databases() {
    let c = config();
    let st = get_row_from_partial_database("sales.db", "orders", 12, &c);
    assert_eq!(st.file, "sales.dbpart");
    assert_eq!(st.sql, "SELECT * from orders WHERE ROWID = 12");
}

#[test]
fn column_list_of_a_table() {
    let cols = vec![
        (String::from("ID"), String::from("INT")),
        (String::from("NAME"), String::from("VARCHAR(20)")),
    ];
    assert_eq!(get_table_col_names_with_data_type_as_string(&cols), "ID INT, NAME VARCHAR(20)");
}

#[test]
fn remote_status_of_tables() {
    let rows = vec![(String::from("a"), 0i64), (String::from("b"), 4)];
    let r = get_remote_status_for_tables(rows);
    assert_eq!(r.len(), 2);
    assert_eq!(r[0].1, LogicalStoragePolicy::NoPolicy);
    assert_eq!(r[1].1, LogicalStoragePolicy::Mirror);
}

#[test]
fn cooperative_tables_of_a_statement() {
    let names = vec![String::from("a"), String::from("b"), String::from("c")];
    let policies = vec![
        Ok(LogicalStoragePolicy::Shared),
        Ok(LogicalStoragePolicy::HostOnly),
        Ok(LogicalStoragePolicy::Mirror),
    ];
    assert_eq!(cooperative_tables(&names, &policies), vec![String::from("a"), String::from("c")]);
    let stopped = vec![
        Ok(LogicalStoragePolicy::ParticpantOwned),
        Err(RcdDbError::TableNotFound(String::from("b"))),
        Ok(LogicalStoragePolicy::Mirror),
    ];
    assert_eq!(cooperative_tables(&names, &stopped), vec![String::from("a")]);
    let c = config();
    let cmd = "SELECT * FROM orders JOIN items ON orders.id = items.order_id";
    let lookups = vec![Ok(LogicalStoragePolicy::HostOnly), Ok(LogicalStoragePolicy::Shared)];
    assert_eq!(get_cooperative_tables("sales.db", cmd, &c, &lookups), vec![String::from("items")]);
    assert!(has_cooperative_tables("sales.db", cmd, &c, &lookups));
    let none = vec![Ok(LogicalStoragePolicy::HostOnly), Ok(LogicalStoragePolicy::NoPolicy)];
    assert!(!has_cooperative_tables("sales.db", cmd, &c, &none));
}

#[test]
fn codes_read_back() {
    for code in 0u32..=4 {
        assert_eq!(LogicalStoragePolicy::to_u32(LogicalStoragePolicy::from_u32(code)), code);
        assert_eq!(ContractStatus::to_u32(ContractStatus::from_u32(code)), code);
        assert_eq!(DatabaseType::to_u32(DatabaseType::from_u32(code)), code);
    }
    for code in 0u32..=3 {
        assert_eq!(RemoteDeleteBehavior::to_u32(RemoteDeleteBehavior::from_u32(code)), code);
    }
    for code in 0u32..=9 {
        assert_eq!(ColumnType::to_u32(ColumnType::from_u32(code)), code);
    }
    assert_eq!(LogicalStoragePolicy::from_i64(4), LogicalStoragePolicy::Mirror);
    assert_eq!(DatabaseType::from_i64(1), DatabaseType::Sqlite);
}

fn participant_with_id(id: &str) -> rcd::participant::CoopDatabaseParticipant {
    rcd::participant::CoopDatabaseParticipant {
        internal_id: id.to_string(),
        alias: format!("alias-{}", id),
        ip4addr: String::new(),
        ip6addr: String::new(),
        db_port: 0,
        contract_status: ContractStatus::Pending,
        accepted_contract_version: String::new(),
        token: Vec::new(),
        id: String::new(),
    }
}

#[test]
fn participants_of_a_table_are_grouped_by_id() {
    let metadata: Vec<(String, u32, Vec<u8>)> = vec![
        (String::from("p1"), 1, vec![1u8]),
        (String::from("p2"), 2, vec![2u8]),
        (String::from("p1"), 3, vec![3u8]),
    ];
    let ids = rcd::participant::distinct_participant_ids(&metadata);
    assert_eq!(ids, vec![String::from("p1"), String::from("p2")]);
    let participants = ids.iter().map(|id| participant_with_id(id)).collect();
    let data = rcd::participant::get_participants_for_table("sales.db", "orders", &metadata, participants);
    assert_eq!(data.len(), 2);
    assert_eq!(data[0].participant.internal_id, "p1");
    assert_eq!(data[0].row_data, vec![(1u32, vec![1u8]), (3u32, vec![3u8])]);
    assert_eq!(data[1].participant.alias, "alias-p2");
    assert_eq!(data[1].row_data, vec![(2u32, vec![2u8])]);
    assert_eq!(data[1].db_name, "sales.db");
    assert_eq!(data[1].table_name, "orders");
}

/// Runs add_participant against a store holding `rows` participants with
/// the alias; returns the result and the rows afterwards.
fn run_add_participant(rows: u64) -> (bool, u64) {
    let c = config();
    let mut rows = rows;
    let mut answers: Vec<u64> = Vec::new();
    loop {
        match add_participant("sales.db", "bob", "127.0.0.1", 5000, &c, &answers) {
            DbStep::Query(st) => {
                assert!(st.sql.contains("WHERE ALIAS = 'bob'"));
                answers.push(rows);
            }
            DbStep::Execute(st) => {
                assert!(st.sql.contains("INSERT INTO COOP_PARTICIPANT"));
                rows += 1;
                answers.push(1);
            }
            DbStep::Read(_) => panic!("no rows are read"),
            DbStep::Done(added) => return (added, rows),
        }
    }
}

#[test]
fn added_participant_is_found_by_a_later_count() {
    let (added, rows) = run_add_participant(0);
    assert!(added);
    assert_eq!(rows, 1);
    let (again, rows) = run_add_participant(rows);
    assert!(!again);
    assert_eq!(rows, 1);
}

#[test]
fn enabling_cooperation_twice_keeps_one_identifier() {
    let c = config();
    let mut ids: Vec<String> = Vec::new();
    for _ in 0..2 {
        let mut answers: Vec<u64> = Vec::new();
        loop {
            match enable_coooperative_features("sales.db", &c, &answers) {
                DbStep::Query(_) => answers.push(ids.len() as u64),
                DbStep::Execute(st) => {
                    if st.params.len() == 2 {
                        match &st.params[0].value {
                            SqlValue::Text(id) => ids.push(id.clone()),
                            _ => panic!("expected a text id"),
                        }
                    }
                    answers.push(1);
                }
                DbStep::Read(_) => panic!("no rows are read"),
                DbStep::Done(()) => break,
            }
        }
        assert_eq!(ids.len(), 1);
        assert_eq!(ids[0].len(), 36);
    }
}

#[test]
fn participant_read_by_alias() {
    let c = config();
    let rows: Vec<(String, String, String, String, u32, u32, String, Vec<u8>, String)> = vec![(
        String::from("0a0b0c0d-0000-0000-0000-00000000abcd"),
        String::from("bob"),
        String::from("127.0.0.1"),
        String::new(),
        5000,
        2,
        String::from("00000000-0000-0000-0000-000000000000"),
        vec![7u8],
        String::from("11111111-2222-3333-4444-55555555aaaa"),
    )];
    match rcd::sqlite_store::read_participant_by_alias("sales.db", "bob", &c, &vec![], &vec![]) {
        DbStep::Read(st) => {
            assert!(st.sql.contains("ALIAS = :alias"));
            assert_eq!(st.params[0].name, ":alias");
        }
        _ => panic!("expected the read by alias"),
    }
    match rcd::sqlite_store::read_participant_by_alias("sales.db", "bob", &c, &rows, &vec![1]) {
        DbStep::Done(p) => {
            assert_eq!(p.internal_id, "0A0B0C0D-0000-0000-0000-00000000ABCD");
            assert_eq!(p.alias, "bob");
            assert_eq!(p.db_port, 5000);
            assert_eq!(p.contract_status, ContractStatus::Pending);
            assert_eq!(p.token, vec![7u8]);
            assert_eq!(p.id, "11111111-2222-3333-4444-55555555AAAA");
        }
        _ => panic!("expected the participant"),
    }
}
