use rcd::cdata::DatabaseSchema;
use rcd::contract::{
    active_contract_from_row, generate_contract, get_all_database_contracts,
    new_database_contract, retire_contract_at, save_contract_at_connection, CoopDatabaseContract,
};
use rcd::dbi::DbiConfigSqlite;
use rcd::participant::{
    participant_from_row, save_participant, update_participant_accepts_contract,
    CoopDatabaseParticipant,
};
use rcd::rcd_db::HostInfo;
use rcd::rcd_enum::{
    ContractStatus, LogicalStoragePolicy, RcdGenerateContractError, RemoteDeleteBehavior,
};
use rcd::replies::{generate_contract_outcome, read_result_set};
use rcd::statement::{DbStep, SqlValue};
use rcd::table::{Column, Data, Row, Table, Value};

fn config() -> DbiConfigSqlite {
    DbiConfigSqlite { root_folder: String::from("/data"), rcd_db_name: String::from("rcd.db") }
}

fn contract(vid: &str, retired: Option<&str>) -> CoopDatabaseContract {
    CoopDatabaseContract {
        contract_id: String::from("C1"),
        generated_date: String::from("2022-01-01 00:00:00 UTC"),
        description: String::from("first"),
        retired_date: retired.map(|d| d.to_string()),
        version_id: vid.to_string(),
        remote_delete_behavior: 2,
    }
}

#[test]
fn contract_save_counts_then_writes() {
    let c = config();
    let k = contract("V1", None);
    match save_contract_at_connection("sales.db", &k, &c, &vec![]) {
        DbStep::Query(st) => assert_eq!(
            st.sql,
            "SELECT COUNT(*) TOTALCOUNT FROM COOP_DATABASE_CONTRACT WHERE VERSION_ID = 'V1'"
        ),
        _ => panic!("expected a count"),
    }
    match save_contract_at_connection("sales.db", &k, &c, &vec![0]) {
        DbStep::Execute(st) => {
            assert!(st.sql.contains("INSERT INTO COOP_DATABASE_CONTRACT"));
            assert!(st.sql.contains("'C1'"));
            assert!(st.sql.contains("'first'"));
            assert!(st.sql.contains("'V1'"));
            assert!(st.sql.contains("'2'"));
            assert!(!st.sql.contains("RETIRED_DATE_UTC"));
        }
        _ => panic!("expected an insert"),
    }
    match save_contract_at_connection("sales.db", &k, &c, &vec![1]) {
        DbStep::Execute(st) => assert!(st.sql.contains("UPDATE COOP_DATABASE_CONTRACT")),
        _ => panic!("expected an update"),
    }
    let retired = contract("V2", Some("2022-02-02 00:00:00 UTC"));
    match save_contract_at_connection("sales.db", &retired, &c, &vec![1]) {
        DbStep::Execute(st) => {
            assert!(st.sql.contains("RETIRED_DATE_UTC = '2022-02-02 00:00:00 UTC'"))
        }
        _ => panic!("expected an update with the retired date"),
    }
    assert!(matches!(save_contract_at_connection("sales.db", &k, &c, &vec![1, 1]), DbStep::Done(())));
}

#[test]
fn contracts_are_retired_at_a_date() {
    let st = retire_contract_at("sales.db", "V1", "2022-03-03", &config());
    assert_eq!(
        st.sql,
        "UPDATE COOP_DATABASE_CONTRACT SET RETIRED_DATE_UTC = '2022-03-03' WHERE VERSION_ID = 'V1'"
    );
}

#[test]
fn new_contracts_are_active() {
    let k = new_database_contract("desc", RemoteDeleteBehavior::AutoDelete);
    assert_eq!(k.contract_id.len(), 36);
    assert_eq!(k.version_id.len(), 36);
    assert_ne!(k.contract_id, k.version_id);
    assert!(k.retired_date.is_none());
    assert_eq!(k.remote_delete_behavior, 2);
    assert_eq!(k.description, "desc");
}

#[test]
fn first_contract_of_a_database() {
    let c = config();
    let policies = vec![(String::from("t"), LogicalStoragePolicy::Shared)];
    let new_c = contract("NEW", None);
    match generate_contract("sales.db", &policies, &vec![], &new_c, "now", &c, &vec![]) {
        DbStep::Query(st) => assert_eq!(st.sql, "SELECT COUNT(*) TOTALCONTRACTS FROM COOP_DATABASE_CONTRACT"),
        _ => panic!("expected a count of contracts"),
    }
    match generate_contract("sales.db", &policies, &vec![], &new_c, "now", &c, &vec![0]) {
        DbStep::Query(st) => assert!(st.sql.contains("VERSION_ID = 'NEW'")),
        _ => panic!("expected the save of the new contract"),
    }
    match generate_contract("sales.db", &policies, &vec![], &new_c, "now", &c, &vec![0, 0]) {
        DbStep::Execute(st) => assert!(st.sql.contains("INSERT INTO COOP_DATABASE_CONTRACT")),
        _ => panic!("expected the insert of the new contract"),
    }
    assert!(matches!(
        generate_contract("sales.db", &policies, &vec![], &new_c, "now", &c, &vec![0, 0, 1]),
        DbStep::Done(Ok(true))
    ));
}

#[test]
fn generation_retires_the_active_contract() {
    let c = config();
    let policies = vec![(String::from("t"), LogicalStoragePolicy::Shared)];
    let existing = vec![contract("OLD", Some("2020")), contract("ACTIVE", None)];
    let new_c = contract("NEW", None);
    let step = |answers: Vec<u64>| generate_contract("sales.db", &policies, &existing, &new_c, "now", &c, &answers);
    match step(vec![2]) {
        DbStep::Read(st) => assert!(st.sql.contains("FROM\n        COOP_DATABASE_CONTRACT")),
        _ => panic!("expected the contracts to be read"),
    }
    match step(vec![2, 2]) {
        DbStep::Execute(st) => assert_eq!(
            st.sql,
            "UPDATE COOP_DATABASE_CONTRACT SET RETIRED_DATE_UTC = 'now' WHERE VERSION_ID = 'ACTIVE'"
        ),
        _ => panic!("expected the active contract to be retired"),
    }
    match step(vec![2, 2, 1]) {
        DbStep::Query(st) => assert!(st.sql.contains("VERSION_ID = 'ACTIVE'")),
        _ => panic!("expected the retired contract to be saved"),
    }
    match step(vec![2, 2, 1, 1]) {
        DbStep::Execute(st) => assert!(st.sql.contains("UPDATE COOP_DATABASE_CONTRACT")),
        _ => panic!("expected the retired contract to be rewritten"),
    }
    match step(vec![2, 2, 1, 1, 1]) {
        DbStep::Query(st) => assert!(st.sql.contains("VERSION_ID = 'NEW'")),
        _ => panic!("expected the new contract to be saved"),
    }
    assert!(matches!(step(vec![2, 2, 1, 1, 1, 0, 1]), DbStep::Done(Ok(true))));
}

#[test]
fn generation_is_refused_without_policies() {
    let c = config();
    let policies = vec![(String::from("t"), LogicalStoragePolicy::NoPolicy)];
    let new_c = contract("NEW", None);
    match generate_contract("sales.db", &policies, &vec![], &new_c, "now", &c, &vec![]) {
        DbStep::Done(Err(RcdGenerateContractError::NotAllTablesSet(m))) => {
            assert_eq!(m, "policy not set for table t, ")
        }
        _ => panic!("expected a refusal"),
    }
}

fn value(col: &str, text: Option<&str>) -> Value {
    Value {
        data: text.map(|t| Data { data_string: t.to_string(), data_byte: Vec::new() }),
        col: Column {
            name: col.to_string(),
            is_nullable: false,
            idx: 0,
            data_type: String::new(),
            is_primary_key: false,
        },
    }
}

#[test]
fn contracts_read_one_per_row() {
    let mut table = Table::new();
    let mut row = Row::new();
    row.add_value(value("CONTRACT_ID", Some("0a0b0c0d-0000-0000-0000-00000000abcd")));
    row.add_value(value("GENERATED_DATE_UTC", Some("2022-03-04 05:06:07")));
    row.add_value(value("DESCRIPTION", Some("shared data")));
    row.add_value(value("RETIRED_DATE_UTC", None));
    row.add_value(value("VERSION_ID", Some("11111111-2222-3333-4444-55555555aaaa")));
    row.add_value(value("REMOTE_DELETE_BEHAVIOR", Some("3")));
    table.add_row(row);
    let mut second = Row::new();
    second.add_value(value("DESCRIPTION", Some("older")));
    second.add_value(value("RETIRED_DATE_UTC", Some("2021-01-02 03:04:05")));
    table.add_row(second);
    let read = get_all_database_contracts(&table, "%Y-%m-%d %H:%M:%S").unwrap();
    assert_eq!(read.len(), 2);
    assert_eq!(read[0].contract_id, "0A0B0C0D-0000-0000-0000-00000000ABCD");
    assert!(read[0].generated_date.starts_with("2022-03-04 05:06:07"));
    assert_eq!(read[0].description, "shared data");
    assert!(read[0].retired_date.is_none());
    assert_eq!(read[0].version_id, "11111111-2222-3333-4444-55555555AAAA");
    assert_eq!(read[0].remote_delete_behavior, 3);
    assert_eq!(read[1].description, "older");
    assert!(read[1].retired_date.as_ref().unwrap().starts_with("2021-01-02 03:04:05"));
    assert_eq!(read[1].remote_delete_behavior, 0);
    assert_eq!(read[1].contract_id.len(), 36);
}

#[test]
fn unreadable_contract_values_stop_the_read() {
    let mut table = Table::new();
    let mut row = Row::new();
    row.add_value(value("VERSION_ID", Some("not a guid")));
    table.add_row(row);
    assert!(get_all_database_contracts(&table, "%Y").is_none());
}

#[test]
fn active_contract_rows() {
    let k = active_contract_from_row(
        "0a0b0c0d-0000-0000-0000-00000000abcd",
        "2022-01-02 03:04:05",
        String::from("d"),
        "11111111-2222-3333-4444-555555555555",
        1,
        "%Y-%m-%d %H:%M:%S",
    )
    .unwrap();
    assert_eq!(k.generated_date, "2022-01-02 03:04:05 UTC");
    assert_eq!(k.contract_id, "0A0B0C0D-0000-0000-0000-00000000ABCD");
    assert!(k.retired_date.is_none());
    assert!(active_contract_from_row("x", "2022", String::new(), "y", 1, "%Y").is_none());
}

#[test]
fn contracts_sent_to_participants() {
    let k = contract("V1", None);
    let host = HostInfo { id: String::from("H"), name: String::from("host"), token: vec![5] };
    let schema = DatabaseSchema {
        database_name: String::from("sales.db"),
        database_id: String::from("D"),
        tables: Vec::new(),
    };
    let sent = k.to_cdata_contract(&host, "1.2.3.4", "", 50052, ContractStatus::Pending, schema);
    assert_eq!(sent.contract_guid, "C1");
    assert_eq!(sent.contract_version, "V1");
    assert_eq!(sent.status, 2);
    let h = sent.host_info.unwrap();
    assert_eq!(h.host_name, "host");
    assert_eq!(h.ip4_address, "1.2.3.4");
    assert_eq!(h.token, vec![5]);
}

fn participant(alias: &str) -> CoopDatabaseParticipant {
    CoopDatabaseParticipant {
        internal_id: String::from("I1"),
        alias: alias.to_string(),
        ip4addr: String::from("10.0.0.1"),
        ip6addr: String::new(),
        db_port: 7000,
        contract_status: ContractStatus::Accepted,
        accepted_contract_version: String::from("V1"),
        token: vec![1, 2],
        id: String::from("P1"),
    }
}

#[test]
fn participants_are_rewritten_or_recorded() {
    let c = config();
    let p = participant("bob");
    match save_participant("sales.db", &p, &c, &vec![1]) {
        DbStep::Execute(st) => {
            assert!(st.sql.contains("UPDATE COOP_PARTICIPANT"));
            assert_eq!(st.params.len(), 8);
            assert_eq!(st.params[7].name, ":alias");
        }
        _ => panic!("expected an update"),
    }
    match save_participant("sales.db", &p, &c, &vec![0]) {
        DbStep::Execute(st) => {
            assert!(st.sql.contains("INSERT INTO COOP_PARTICIPANT"));
            assert_eq!(st.params.len(), 9);
            match &st.params[5].value {
                SqlValue::Int(s) => assert_eq!(*s, 3),
                _ => panic!("expected the status code"),
            }
        }
        _ => panic!("expected an insert"),
    }
}

#[test]
fn participants_read_from_rows() {
    let p = participant_from_row(
        "aaaaaaaa-bbbb-cccc-dddd-eeeeeeeeeeee",
        String::from("bob"),
        String::from("10.0.0.1"),
        String::new(),
        7000,
        2,
        "00000000-0000-0000-0000-000000000000",
        vec![],
        "00000000-0000-0000-0000-000000000000",
    )
    .unwrap();
    assert_eq!(p.internal_id, "AAAAAAAA-BBBB-CCCC-DDDD-EEEEEEEEEEEE");
    assert_eq!(p.contract_status, ContractStatus::Pending);
    let bad_status = participant_from_row(
        "aaaaaaaa-bbbb-cccc-dddd-eeeeeeeeeeee",
        String::new(),
        String::new(),
        String::new(),
        0,
        9,
        "00000000-0000-0000-0000-000000000000",
        vec![],
        "00000000-0000-0000-0000-000000000000",
    );
    assert!(bad_status.is_none());
}

#[test]
fn accepted_contracts_are_recorded() {
    let p = participant("bob");
    let st = update_participant_accepts_contract("sales.db", &p, "P9", &vec![3], "V7", &config());
    assert!(st.sql.contains("CONTRACT_STATUS = 3"));
    assert_eq!(st.params.len(), 4);
    assert_eq!(st.params[3].name, ":iid");
    match &st.params[0].value {
        SqlValue::Text(v) => assert_eq!(v, "V7"),
        _ => panic!("expected the version"),
    }
}

#[test]
fn replies_to_clients() {
    let denied = read_result_set(false, Ok(Vec::new()));
    assert!(denied.is_error);
    let failed = read_result_set(true, Err(String::from("no such table")));
    assert!(failed.is_error);
    assert_eq!(failed.execution_error_message, "no such table");
    let ok = read_result_set(true, Ok(Vec::new()));
    assert!(!ok.is_error);
    assert_eq!(ok.number_of_rows_affected, 0);
    let (s, m) = generate_contract_outcome(
        true,
        Err(RcdGenerateContractError::NotAllTablesSet(String::from("policy not set for table t, "))),
    );
    assert!(!s);
    assert_eq!(m, "policy not set for table t, ");
    let (s, m) = generate_contract_outcome(false, Ok(true));
    assert!(!s);
    assert_eq!(m, "");
    assert_eq!(generate_contract_outcome(true, Ok(true)).0, true);
}

#[test]
fn guid_text_is_stable() {
    let once = participant_from_row(
        "abcdef01-2345-6789-abcd-ef0123456789",
        String::new(),
        String::new(),
        String::new(),
        0,
        0,
        "00000000-0000-0000-0000-000000000000",
        vec![],
        "00000000-0000-0000-0000-000000000000",
    )
    .unwrap();
    let twice = participant_from_row(
        &once.internal_id,
        String::new(),
        String::new(),
        String::new(),
        0,
        0,
        "00000000-0000-0000-0000-000000000000",
        vec![],
        "00000000-0000-0000-0000-000000000000",
    )
    .unwrap();
    assert_eq!(once.internal_id, "ABCDEF01-2345-6789-ABCD-EF0123456789");
    assert_eq!(twice.internal_id, once.internal_id);
}

/// Runs generate_contract against a table of contract rows, each a version
/// id and whether it is retired; returns the outcome.
fn run_generation(rows: &mut Vec<(String, bool)>, new_c: &CoopDatabaseContract) -> Result<bool, RcdGenerateContractError> {
    let c = config();
    let policies = vec![(String::from("t"), LogicalStoragePolicy::HostOnly)];
    let existing: Vec<CoopDatabaseContract> = rows
        .iter()
        .map(|(vid, retired)| contract(vid, if *retired { Some("2021-01-01 00:00:00 UTC") } else { None }))
        .collect();
    let mut answers: Vec<u64> = Vec::new();
    loop {
        match generate_contract("sales.db", &policies, &existing, new_c, "2022-06-01 00:00:00 UTC", &c, &answers) {
            DbStep::Query(st) => {
                if st.sql.contains("WHERE VERSION_ID") {
                    let n = rows.iter().filter(|(vid, _)| st.sql.contains(&format!("'{}'", vid))).count();
                    answers.push(n as u64);
                } else {
                    answers.push(rows.len() as u64);
                }
            }
            DbStep::Read(_) => answers.push(rows.len() as u64),
            DbStep::Execute(st) => {
                if st.sql.contains("SET RETIRED_DATE_UTC") {
                    for row in rows.iter_mut() {
                        if st.sql.contains(&format!("'{}'", row.0)) {
                            row.1 = true;
                        }
                    }
                } else if st.sql.contains("INSERT INTO") {
                    rows.push((new_c.version_id.clone(), new_c.retired_date.is_some()));
                }
                answers.push(1);
            }
            DbStep::Done(outcome) => return outcome,
        }
    }
}

#[test]
fn generated_contract_is_the_only_active_one() {
    let mut rows = vec![(String::from("V1"), true), (String::from("V2"), false)];
    let first = contract("V3", None);
    assert!(run_generation(&mut rows, &first).unwrap());
    assert_eq!(rows, vec![(String::from("V1"), true), (String::from("V2"), true), (String::from("V3"), false)]);
    let second = contract("V4", None);
    assert!(run_generation(&mut rows, &second).unwrap());
    assert_eq!(rows.iter().filter(|(_, retired)| !retired).count(), 1);
    assert_eq!(rows.last().unwrap(), &(String::from("V4"), false));
    let mut empty: Vec<(String, bool)> = Vec::new();
    assert!(run_generation(&mut empty, &first).unwrap());
    assert_eq!(empty, vec![(String::from("V3"), false)]);
}
