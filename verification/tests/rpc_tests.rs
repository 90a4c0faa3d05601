use rcd::rpc::{
    data_service_method_path, data_service_method_route, sql_client_method_path,
    sql_client_method_route, DataServiceMethod, SqlClientMethod, UNIMPLEMENTED_STATUS,
};

#[test]
fn client_service_paths_route_back() {
    let all = [
        SqlClientMethod::IsOnline,
        SqlClientMethod::CreateUserDatabase,
        SqlClientMethod::EnableCoooperativeFeatures,
        SqlClientMethod::ExecuteRead,
        SqlClientMethod::ExecuteCooperativeRead,
        SqlClientMethod::ExecuteWrite,
        SqlClientMethod::ExecuteCooperativeWrite,
        SqlClientMethod::HasTable,
        SqlClientMethod::SetLogicalStoragePolicy,
        SqlClientMethod::GetLogicalStoragePolicy,
        SqlClientMethod::GenerateContract,
        SqlClientMethod::AddParticipant,
        SqlClientMethod::SendParticipantContract,
        SqlClientMethod::ReviewPendingContracts,
        SqlClientMethod::AcceptPendingContract,
        SqlClientMethod::RejectPendingContract,
        SqlClientMethod::GenerateHostInfo,
    ];
    for m in all {
        assert_eq!(sql_client_method_route(sql_client_method_path(m)), Some(m));
    }
    assert_eq!(sql_client_method_path(SqlClientMethod::ExecuteRead), "/cdata.SQLClient/ExecuteRead");
}

#[test]
fn data_service_paths_route_back() {
    let all = [
        DataServiceMethod::IsOnline,
        DataServiceMethod::CreatePartialDatabase,
        DataServiceMethod::CreateTableInDatabase,
        DataServiceMethod::InsertRowIntoTable,
        DataServiceMethod::InsertCommandIntoTable,
        DataServiceMethod::UpdateRowInTable,
        DataServiceMethod::GetRowsFromTable,
        DataServiceMethod::GetRowFromPartialDatabase,
        DataServiceMethod::SaveContract,
        DataServiceMethod::AcceptContract,
        DataServiceMethod::RemoveRowFromPartialDatabase,
        DataServiceMethod::UpdateRowDataHashForHost,
        DataServiceMethod::NotifyHostOfRemovedRow,
    ];
    for m in all {
        assert_eq!(data_service_method_route(data_service_method_path(m)), Some(m));
    }
}

#[test]
fn unknown_paths_are_not_served() {
    assert_eq!(sql_client_method_route("/cdata.SQLClient/Nope"), None);
    assert_eq!(sql_client_method_route("/cdata.DataService/IsOnline"), None);
    assert_eq!(data_service_method_route("/cdata.DataService/isonline"), None);
    assert_eq!(UNIMPLEMENTED_STATUS, "12");
}

#[test]
fn online_test_echoes_the_message() {
    let request = rcd::cdata::TestRequest {
        request_time_utc: String::new(),
        request_origin_url: String::new(),
        request_origin_ip4: String::from("127.0.0.1"),
        request_origin_ip6: String::new(),
        request_port_number: 1234,
        request_echo_message: String::from("test_is_online"),
    };
    let reply = rcd::replies::is_online(&request);
    assert_eq!(reply.reply_echo_message, "test_is_online");
    assert!(reply.reply_time_utc.ends_with("+0000"));
}
