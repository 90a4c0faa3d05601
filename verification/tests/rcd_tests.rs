use rcd::rcd_enum::{DatabaseType, DmlType};
use rcd::query_parser::determine_statement_type;
use rcd::service::{get_service_from_config, get_service_from_config_file, RcdSettings};
use rcd::test_harness::TestSettings;

#[test]
fn test_test_harness_value() {
    let mut settings = TestSettings::new(6000);
    let current = settings.get_current_port();
    let next = settings.get_next_avail_port();
    assert_eq!(current + 1, next);
}

#[test]
fn rcd_test_test_harness_value() {
    let mut settings = TestSettings::new(6000);
    let current = settings.get_current_port();
    let next = settings.get_next_avail_port();
    assert_eq!(current + 1, next);
}

#[test]
fn client_service_tests_get_harness_value() {
    let mut settings = TestSettings::new(6000);
    let current = settings.get_current_port();
    let next = settings.get_next_avail_port();
    assert_eq!(current + 1, next);
}

#[test]
fn harness_hands_out_ports_in_order() {
    let mut settings = TestSettings::new(6000);
    assert_eq!(settings.get_next_avail_port(), 6001);
    assert_eq!(settings.get_next_avail_port(), 6002);
    assert_eq!(settings.get_current_port(), 6002);
}

#[test]
fn mod_test_read_settings_from_file() {
    let service = get_service_from_config_file(
        1,
        String::from("rcd.db"),
        String::from("[::1]:50051"),
        String::from("[::1]:50052"),
    );
    let db_type = service.rcd_settings.database_type;
    assert_eq!(db_type, DatabaseType::Sqlite);
}

#[test]
fn settings_from_file_keep_the_admin() {
    let service = get_service_from_config_file(
        1,
        String::from("rcd.db"),
        String::from("[::1]:50051"),
        String::from("[::1]:50052"),
    );
    assert_eq!(service.rcd_settings.admin_un, "tester");
    assert_eq!(service.rcd_settings.admin_pw, "123456");
    assert_eq!(service.rcd_settings.backing_database_name, "rcd.db");
    assert_eq!(service.root_dir, "");
}

#[test]
fn mod_test_read_settings_from_config() {
    let rcd_setting = RcdSettings {
        admin_un: String::from(""),
        admin_pw: String::from(""),
        database_type: DatabaseType::Unknown,
        backing_database_name: String::from(""),
        client_service_addr_port: String::from("[::1]:50051"),
        database_service_addr_port: String::from(""),
    };
    let service = get_service_from_config(rcd_setting);
    assert_eq!(service.rcd_settings.database_type, DatabaseType::Unknown);
}

#[test]
fn unknown() {
    let example = "ABCD";
    let statement_type = determine_statement_type(example.to_string());
    assert_eq!(statement_type, DmlType::Unknown);
}

#[test]
fn select() {
    let example = "SELECT col1, col2 FROM asdf;";
    let statement_type = determine_statement_type(example.to_string());
    assert_eq!(statement_type, DmlType::Select);
}

#[test]
fn insert() {
    let example = "INSERT INTO asdf ( col1, col2 ) VALUES ( 1, 'abcd');";
    let statement_type = determine_statement_type(example.to_string());
    assert_eq!(statement_type, DmlType::Insert);
}

#[test]
fn update() {
    let example = "UPDATE asdf SET col1 = 'foo' WHERE col2 = 3;";
    let statement_type = determine_statement_type(example.to_string());
    assert_eq!(statement_type, DmlType::Update);
}

#[test]
fn delete() {
    let example = "DELETE FROM asdf WHERE col1 = 'a';";
    let statement_type = determine_statement_type(example.to_string());
    assert_eq!(statement_type, DmlType::Delete);
}

fn tester_settings() -> RcdSettings {
    RcdSettings {
        admin_un: String::from("tester"),
        admin_pw: String::from("123456"),
        database_type: DatabaseType::Unknown,
        backing_database_name: String::from(""),
        client_service_addr_port: String::from("[::1]:50051"),
        database_service_addr_port: String::from(""),
    }
}

#[test]
fn rcd_test_read_settings_from_config() {
    let service = get_service_from_config(tester_settings());
    assert_eq!(service.rcd_settings.database_type, DatabaseType::Unknown);
}

#[test]
fn read_settings_from_config() {
    let service = get_service_from_config(tester_settings());
    assert_eq!(service.rcd_settings.database_type, DatabaseType::Unknown);
}

#[test]
fn rcd_tests_get_harness_value() {
    let mut settings = TestSettings::new(6000);
    let current = settings.get_current_port();
    let next = settings.get_next_avail_port();
    assert_eq!(current + 1, next);
}

#[test]
fn read_settings_from_file() {
    let service = get_service_from_config_file(
        1,
        String::from("rcd.db"),
        String::from("[::1]:50051"),
        String::from("[::1]:50052"),
    );
    let db_type = service.rcd_settings.database_type;
    assert_eq!(db_type, DatabaseType::Sqlite);
}

#[test]
fn services_start_a_sqlite_store_only_for_sqlite() {
    let mut s = tester_settings();
    s.database_type = DatabaseType::Sqlite;
    assert!(get_service_from_config(s.clone()).start());
    s.database_type = DatabaseType::Mysql;
    assert!(!get_service_from_config(s).start());
    let service = get_service_from_config(tester_settings());
    assert_eq!(service.cwd("/work"), "/work");
}

#[test]
fn statement_kind_is_the_last_statement_opened() {
    assert_eq!(determine_statement_type(String::from("INSERT INTO t SELECT * FROM u")), DmlType::Select);
    assert_eq!(determine_statement_type(String::from("delete from t where x in (select y from u)")), DmlType::Select);
    assert_eq!(determine_statement_type(String::from("SELECT \"update\" FROM t")), DmlType::Select);
    assert_eq!(determine_statement_type(String::from("UPDATE t SET c = 'select'")), DmlType::Update);
    assert_eq!(determine_statement_type(String::from("")), DmlType::Unknown);
}

#[test]
fn statement_kind_skips_comments() {
    assert_eq!(determine_statement_type(String::from("SELECT a FROM t -- DELETE")), DmlType::Select);
    assert_eq!(determine_statement_type(String::from("/* DELETE */ SELECT a FROM t")), DmlType::Select);
    assert_eq!(determine_statement_type(String::from("DELETE FROM t /* select */")), DmlType::Delete);
    assert_eq!(determine_statement_type(String::from("-- SELECT\nUPDATE t SET a = 1")), DmlType::Update);
}
