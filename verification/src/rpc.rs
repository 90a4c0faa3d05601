//! The remote procedure calls that rcd serves and makes: the methods of
//! its client service (SQLClient) and of its data service (DataService),
//! and the request path by which a call names its method.
use vstd::prelude::*;

use crate::text::text_eq;

verus! {

/// The status sent for a request whose path names no method served
/// ("unimplemented").
pub const UNIMPLEMENTED_STATUS: &'static str = "12";

/// The methods of the client service.
#[derive(Debug, PartialEq, Eq, Structural, Copy, Clone)]
pub enum SqlClientMethod {
    IsOnline,
    CreateUserDatabase,
    EnableCoooperativeFeatures,
    ExecuteRead,
    ExecuteCooperativeRead,
    ExecuteWrite,
    ExecuteCooperativeWrite,
    HasTable,
    SetLogicalStoragePolicy,
    GetLogicalStoragePolicy,
    GenerateContract,
    AddParticipant,
    SendParticipantContract,
    ReviewPendingContracts,
    AcceptPendingContract,
    RejectPendingContract,
    GenerateHostInfo,
}

/// The request path of a method of the client service.
pub open spec fn sql_client_method_path_of(m: SqlClientMethod) -> Seq<char> {
    match m {
        SqlClientMethod::IsOnline => "/cdata.SQLClient/IsOnline"@,
        SqlClientMethod::CreateUserDatabase => "/cdata.SQLClient/CreateUserDatabase"@,
        SqlClientMethod::EnableCoooperativeFeatures => "/cdata.SQLClient/EnableCoooperativeFeatures"@,
        SqlClientMethod::ExecuteRead => "/cdata.SQLClient/ExecuteRead"@,
        SqlClientMethod::ExecuteCooperativeRead => "/cdata.SQLClient/ExecuteCooperativeRead"@,
        SqlClientMethod::ExecuteWrite => "/cdata.SQLClient/ExecuteWrite"@,
        SqlClientMethod::ExecuteCooperativeWrite => "/cdata.SQLClient/ExecuteCooperativeWrite"@,
        SqlClientMethod::HasTable => "/cdata.SQLClient/HasTable"@,
        SqlClientMethod::SetLogicalStoragePolicy => "/cdata.SQLClient/SetLogicalStoragePolicy"@,
        SqlClientMethod::GetLogicalStoragePolicy => "/cdata.SQLClient/GetLogicalStoragePolicy"@,
        SqlClientMethod::GenerateContract => "/cdata.SQLClient/GenerateContract"@,
        SqlClientMethod::AddParticipant => "/cdata.SQLClient/AddParticipant"@,
        SqlClientMethod::SendParticipantContract => "/cdata.SQLClient/SendParticipantContract"@,
        SqlClientMethod::ReviewPendingContracts => "/cdata.SQLClient/ReviewPendingContracts"@,
        SqlClientMethod::AcceptPendingContract => "/cdata.SQLClient/AcceptPendingContract"@,
        SqlClientMethod::RejectPendingContract => "/cdata.SQLClient/RejectPendingContract"@,
        SqlClientMethod::GenerateHostInfo => "/cdata.SQLClient/GenerateHostInfo"@,
    }
}

/// The method of the client service that a request path names, if any.
pub open spec fn sql_client_method_of_path(p: Seq<char>) -> Option<SqlClientMethod> {
    if p == "/cdata.SQLClient/IsOnline"@ {
        Some(SqlClientMethod::IsOnline)
    } else if p == "/cdata.SQLClient/CreateUserDatabase"@ {
        Some(SqlClientMethod::CreateUserDatabase)
    } else if p == "/cdata.SQLClient/EnableCoooperativeFeatures"@ {
        Some(SqlClientMethod::EnableCoooperativeFeatures)
    } else if p == "/cdata.SQLClient/ExecuteRead"@ {
        Some(SqlClientMethod::ExecuteRead)
    } else if p == "/cdata.SQLClient/ExecuteCooperativeRead"@ {
        Some(SqlClientMethod::ExecuteCooperativeRead)
    } else if p == "/cdata.SQLClient/ExecuteWrite"@ {
        Some(SqlClientMethod::ExecuteWrite)
    } else if p == "/cdata.SQLClient/ExecuteCooperativeWrite"@ {
        Some(SqlClientMethod::ExecuteCooperativeWrite)
    } else if p == "/cdata.SQLClient/HasTable"@ {
        Some(SqlClientMethod::HasTable)
    } else if p == "/cdata.SQLClient/SetLogicalStoragePolicy"@ {
        Some(SqlClientMethod::SetLogicalStoragePolicy)
    } else if p == "/cdata.SQLClient/GetLogicalStoragePolicy"@ {
        Some(SqlClientMethod::GetLogicalStoragePolicy)
    } else if p == "/cdata.SQLClient/GenerateContract"@ {
        Some(SqlClientMethod::GenerateContract)
    } else if p == "/cdata.SQLClient/AddParticipant"@ {
        Some(SqlClientMethod::AddParticipant)
    } else if p == "/cdata.SQLClient/SendParticipantContract"@ {
        Some(SqlClientMethod::SendParticipantContract)
    } else if p == "/cdata.SQLClient/ReviewPendingContracts"@ {
        Some(SqlClientMethod::ReviewPendingContracts)
    } else if p == "/cdata.SQLClient/AcceptPendingContract"@ {
        Some(SqlClientMethod::AcceptPendingContract)
    } else if p == "/cdata.SQLClient/RejectPendingContract"@ {
        Some(SqlClientMethod::RejectPendingContract)
    } else if p == "/cdata.SQLClient/GenerateHostInfo"@ {
        Some(SqlClientMethod::GenerateHostInfo)
    } else {
        None
    }
}

/// The request path of a method of the client service, as its client sends it.
pub fn sql_client_method_path(m: SqlClientMethod) -> (r: &'static str)
    ensures
        r@ == sql_client_method_path_of(m),
{
    match m {
        SqlClientMethod::IsOnline => "/cdata.SQLClient/IsOnline",
        SqlClientMethod::CreateUserDatabase => "/cdata.SQLClient/CreateUserDatabase",
        SqlClientMethod::EnableCoooperativeFeatures => "/cdata.SQLClient/EnableCoooperativeFeatures",
        SqlClientMethod::ExecuteRead => "/cdata.SQLClient/ExecuteRead",
        SqlClientMethod::ExecuteCooperativeRead => "/cdata.SQLClient/ExecuteCooperativeRead",
        SqlClientMethod::ExecuteWrite => "/cdata.SQLClient/ExecuteWrite",
        SqlClientMethod::ExecuteCooperativeWrite => "/cdata.SQLClient/ExecuteCooperativeWrite",
        SqlClientMethod::HasTable => "/cdata.SQLClient/HasTable",
        SqlClientMethod::SetLogicalStoragePolicy => "/cdata.SQLClient/SetLogicalStoragePolicy",
        SqlClientMethod::GetLogicalStoragePolicy => "/cdata.SQLClient/GetLogicalStoragePolicy",
        SqlClientMethod::GenerateContract => "/cdata.SQLClient/GenerateContract",
        SqlClientMethod::AddParticipant => "/cdata.SQLClient/AddParticipant",
        SqlClientMethod::SendParticipantContract => "/cdata.SQLClient/SendParticipantContract",
        SqlClientMethod::ReviewPendingContracts => "/cdata.SQLClient/ReviewPendingContracts",
        SqlClientMethod::AcceptPendingContract => "/cdata.SQLClient/AcceptPendingContract",
        SqlClientMethod::RejectPendingContract => "/cdata.SQLClient/RejectPendingContract",
        SqlClientMethod::GenerateHostInfo => "/cdata.SQLClient/GenerateHostInfo",
    }
}

/// The method of the client service that a request's path names; none for a
/// path it does not serve, which is answered as unimplemented (see
/// `UNIMPLEMENTED_STATUS`).
pub fn sql_client_method_route(path: &str) -> (r: Option<SqlClientMethod>)
    ensures
        r == sql_client_method_of_path(path@),
{
    if text_eq(path, "/cdata.SQLClient/IsOnline") {
        return Some(SqlClientMethod::IsOnline);
    }
    if text_eq(path, "/cdata.SQLClient/CreateUserDatabase") {
        return Some(SqlClientMethod::CreateUserDatabase);
    }
    if text_eq(path, "/cdata.SQLClient/EnableCoooperativeFeatures") {
        return Some(SqlClientMethod::EnableCoooperativeFeatures);
    }
    if text_eq(path, "/cdata.SQLClient/ExecuteRead") {
        return Some(SqlClientMethod::ExecuteRead);
    }
    if text_eq(path, "/cdata.SQLClient/ExecuteCooperativeRead") {
        return Some(SqlClientMethod::ExecuteCooperativeRead);
    }
    if text_eq(path, "/cdata.SQLClient/ExecuteWrite") {
        return Some(SqlClientMethod::ExecuteWrite);
    }
    if text_eq(path, "/cdata.SQLClient/ExecuteCooperativeWrite") {
        return Some(SqlClientMethod::ExecuteCooperativeWrite);
    }
    if text_eq(path, "/cdata.SQLClient/HasTable") {
        return Some(SqlClientMethod::HasTable);
    }
    if text_eq(path, "/cdata.SQLClient/SetLogicalStoragePolicy") {
        return Some(SqlClientMethod::SetLogicalStoragePolicy);
    }
    if text_eq(path, "/cdata.SQLClient/GetLogicalStoragePolicy") {
        return Some(SqlClientMethod::GetLogicalStoragePolicy);
    }
    if text_eq(path, "/cdata.SQLClient/GenerateContract") {
        return Some(SqlClientMethod::GenerateContract);
    }
    if text_eq(path, "/cdata.SQLClient/AddParticipant") {
        return Some(SqlClientMethod::AddParticipant);
    }
    if text_eq(path, "/cdata.SQLClient/SendParticipantContract") {
        return Some(SqlClientMethod::SendParticipantContract);
    }
    if text_eq(path, "/cdata.SQLClient/ReviewPendingContracts") {
        return Some(SqlClientMethod::ReviewPendingContracts);
    }
    if text_eq(path, "/cdata.SQLClient/AcceptPendingContract") {
        return Some(SqlClientMethod::AcceptPendingContract);
    }
    if text_eq(path, "/cdata.SQLClient/RejectPendingContract") {
        return Some(SqlClientMethod::RejectPendingContract);
    }
    if text_eq(path, "/cdata.SQLClient/GenerateHostInfo") {
        return Some(SqlClientMethod::GenerateHostInfo);
    }
    None
}

/// A request sent by the client of a method of the client service is served by
/// that method.
pub proof fn law_sql_client_method_paths_route_back(m: SqlClientMethod)
    ensures
        sql_client_method_of_path(sql_client_method_path_of(m)) == Some(m),
{
    match m {
        SqlClientMethod::IsOnline => {
            reveal_strlit("/cdata.SQLClient/IsOnline");
        },
        SqlClientMethod::CreateUserDatabase => {
            reveal_strlit("/cdata.SQLClient/CreateUserDatabase");
            reveal_strlit("/cdata.SQLClient/IsOnline");
            assert("/cdata.SQLClient/CreateUserDatabase"@.len() != "/cdata.SQLClient/IsOnline"@.len());
        },
        SqlClientMethod::EnableCoooperativeFeatures => {
            reveal_strlit("/cdata.SQLClient/EnableCoooperativeFeatures");
            reveal_strlit("/cdata.SQLClient/IsOnline");
            assert("/cdata.SQLClient/EnableCoooperativeFeatures"@.len() != "/cdata.SQLClient/IsOnline"@.len());
            reveal_strlit("/cdata.SQLClient/CreateUserDatabase");
            assert("/cdata.SQLClient/EnableCoooperativeFeatures"@.len() != "/cdata.SQLClient/CreateUserDatabase"@.len());
        },
        SqlClientMethod::ExecuteRead => {
            reveal_strlit("/cdata.SQLClient/ExecuteRead");
            reveal_strlit("/cdata.SQLClient/IsOnline");
            assert("/cdata.SQLClient/ExecuteRead"@.len() != "/cdata.SQLClient/IsOnline"@.len());
            reveal_strlit("/cdata.SQLClient/CreateUserDatabase");
            assert("/cdata.SQLClient/ExecuteRead"@.len() != "/cdata.SQLClient/CreateUserDatabase"@.len());
            reveal_strlit("/cdata.SQLClient/EnableCoooperativeFeatures");
            assert("/cdata.SQLClient/ExecuteRead"@.len() != "/cdata.SQLClient/EnableCoooperativeFeatures"@.len());
        },
        SqlClientMethod::ExecuteCooperativeRead => {
            reveal_strlit("/cdata.SQLClient/ExecuteCooperativeRead");
            reveal_strlit("/cdata.SQLClient/IsOnline");
            assert("/cdata.SQLClient/ExecuteCooperativeRead"@.len() != "/cdata.SQLClient/IsOnline"@.len());
            reveal_strlit("/cdata.SQLClient/CreateUserDatabase");
            assert("/cdata.SQLClient/ExecuteCooperativeRead"@.len() != "/cdata.SQLClient/CreateUserDatabase"@.len());
            reveal_strlit("/cdata.SQLClient/EnableCoooperativeFeatures");
            assert("/cdata.SQLClient/ExecuteCooperativeRead"@.len() != "/cdata.SQLClient/EnableCoooperativeFeatures"@.len());
            reveal_strlit("/cdata.SQLClient/ExecuteRead");
            assert("/cdata.SQLClient/ExecuteCooperativeRead"@.len() != "/cdata.SQLClient/ExecuteRead"@.len());
        },
        SqlClientMethod::ExecuteWrite => {
            reveal_strlit("/cdata.SQLClient/ExecuteWrite");
            reveal_strlit("/cdata.SQLClient/IsOnline");
            assert("/cdata.SQLClient/ExecuteWrite"@.len() != "/cdata.SQLClient/IsOnline"@.len());
            reveal_strlit("/cdata.SQLClient/CreateUserDatabase");
            assert("/cdata.SQLClient/ExecuteWrite"@.len() != "/cdata.SQLClient/CreateUserDatabase"@.len());
            reveal_strlit("/cdata.SQLClient/EnableCoooperativeFeatures");
            assert("/cdata.SQLClient/ExecuteWrite"@.len() != "/cdata.SQLClient/EnableCoooperativeFeatures"@.len());
            reveal_strlit("/cdata.SQLClient/ExecuteRead");
            assert("/cdata.SQLClient/ExecuteWrite"@.len() != "/cdata.SQLClient/ExecuteRead"@.len());
            reveal_strlit("/cdata.SQLClient/ExecuteCooperativeRead");
            assert("/cdata.SQLClient/ExecuteWrite"@.len() != "/cdata.SQLClient/ExecuteCooperativeRead"@.len());
        },
        SqlClientMethod::ExecuteCooperativeWrite => {
            reveal_strlit("/cdata.SQLClient/ExecuteCooperativeWrite");
            reveal_strlit("/cdata.SQLClient/IsOnline");
            assert("/cdata.SQLClient/ExecuteCooperativeWrite"@.len() != "/cdata.SQLClient/IsOnline"@.len());
            reveal_strlit("/cdata.SQLClient/CreateUserDatabase");
            assert("/cdata.SQLClient/ExecuteCooperativeWrite"@.len() != "/cdata.SQLClient/CreateUserDatabase"@.len());
            reveal_strlit("/cdata.SQLClient/EnableCoooperativeFeatures");
            assert("/cdata.SQLClient/ExecuteCooperativeWrite"@.len() != "/cdata.SQLClient/EnableCoooperativeFeatures"@.len());
            reveal_strlit("/cdata.SQLClient/ExecuteRead");
            assert("/cdata.SQLClient/ExecuteCooperativeWrite"@.len() != "/cdata.SQLClient/ExecuteRead"@.len());
            reveal_strlit("/cdata.SQLClient/ExecuteCooperativeRead");
            assert("/cdata.SQLClient/ExecuteCooperativeWrite"@.len() != "/cdata.SQLClient/ExecuteCooperativeRead"@.len());
            reveal_strlit("/cdata.SQLClient/ExecuteWrite");
            assert("/cdata.SQLClient/ExecuteCooperativeWrite"@.len() != "/cdata.SQLClient/ExecuteWrite"@.len());
        },
        SqlClientMethod::HasTable => {
            reveal_strlit("/cdata.SQLClient/HasTable");
            reveal_strlit("/cdata.SQLClient/IsOnline");
            assert("/cdata.SQLClient/HasTable"@[17] != "/cdata.SQLClient/IsOnline"@[17]);
            reveal_strlit("/cdata.SQLClient/CreateUserDatabase");
            assert("/cdata.SQLClient/HasTable"@.len() != "/cdata.SQLClient/CreateUserDatabase"@.len());
            reveal_strlit("/cdata.SQLClient/EnableCoooperativeFeatures");
            assert("/cdata.SQLClient/HasTable"@.len() != "/cdata.SQLClient/EnableCoooperativeFeatures"@.len());
            reveal_strlit("/cdata.SQLClient/ExecuteRead");
            assert("/cdata.SQLClient/HasTable"@.len() != "/cdata.SQLClient/ExecuteRead"@.len());
            reveal_strlit("/cdata.SQLClient/ExecuteCooperativeRead");
            assert("/cdata.SQLClient/HasTable"@.len() != "/cdata.SQLClient/ExecuteCooperativeRead"@.len());
            reveal_strlit("/cdata.SQLClient/ExecuteWrite");
            assert("/cdata.SQLClient/HasTable"@.len() != "/cdata.SQLClient/ExecuteWrite"@.len());
            reveal_strlit("/cdata.SQLClient/ExecuteCooperativeWrite");
            assert("/cdata.SQLClient/HasTable"@.len() != "/cdata.SQLClient/ExecuteCooperativeWrite"@.len());
        },
        SqlClientMethod::SetLogicalStoragePolicy => {
            reveal_strlit("/cdata.SQLClient/SetLogicalStoragePolicy");
            reveal_strlit("/cdata.SQLClient/IsOnline");
            assert("/cdata.SQLClient/SetLogicalStoragePolicy"@.len() != "/cdata.SQLClient/IsOnline"@.len());
            reveal_strlit("/cdata.SQLClient/CreateUserDatabase");
            assert("/cdata.SQLClient/SetLogicalStoragePolicy"@.len() != "/cdata.SQLClient/CreateUserDatabase"@.len());
            reveal_strlit("/cdata.SQLClient/EnableCoooperativeFeatures");
            assert("/cdata.SQLClient/SetLogicalStoragePolicy"@.len() != "/cdata.SQLClient/EnableCoooperativeFeatures"@.len());
            reveal_strlit("/cdata.SQLClient/ExecuteRead");
            assert("/cdata.SQLClient/SetLogicalStoragePolicy"@.len() != "/cdata.SQLClient/ExecuteRead"@.len());
            reveal_strlit("/cdata.SQLClient/ExecuteCooperativeRead");
            assert("/cdata.SQLClient/SetLogicalStoragePolicy"@.len() != "/cdata.SQLClient/ExecuteCooperativeRead"@.len());
            reveal_strlit("/cdata.SQLClient/ExecuteWrite");
            assert("/cdata.SQLClient/SetLogicalStoragePolicy"@.len() != "/cdata.SQLClient/ExecuteWrite"@.len());
            reveal_strlit("/cdata.SQLClient/ExecuteCooperativeWrite");
            assert("/cdata.SQLClient/SetLogicalStoragePolicy"@[17] != "/cdata.SQLClient/ExecuteCooperativeWrite"@[17]);
            reveal_strlit("/cdata.SQLClient/HasTable");
            assert("/cdata.SQLClient/SetLogicalStoragePolicy"@.len() != "/cdata.SQLClient/HasTable"@.len());
        },
        SqlClientMethod::GetLogicalStoragePolicy => {
            reveal_strlit("/cdata.SQLClient/GetLogicalStoragePolicy");
            reveal_strlit("/cdata.SQLClient/IsOnline");
            assert("/cdata.SQLClient/GetLogicalStoragePolicy"@.len() != "/cdata.SQLClient/IsOnline"@.len());
            reveal_strlit("/cdata.SQLClient/CreateUserDatabase");
            assert("/cdata.SQLClient/GetLogicalStoragePolicy"@.len() != "/cdata.SQLClient/CreateUserDatabase"@.len());
            reveal_strlit("/cdata.SQLClient/EnableCoooperativeFeatures");
            assert("/cdata.SQLClient/GetLogicalStoragePolicy"@.len() != "/cdata.SQLClient/EnableCoooperativeFeatures"@.len());
            reveal_strlit("/cdata.SQLClient/ExecuteRead");
            assert("/cdata.SQLClient/GetLogicalStoragePolicy"@.len() != "/cdata.SQLClient/ExecuteRead"@.len());
            reveal_strlit("/cdata.SQLClient/ExecuteCooperativeRead");
            assert("/cdata.SQLClient/GetLogicalStoragePolicy"@.len() != "/cdata.SQLClient/ExecuteCooperativeRead"@.len());
            reveal_strlit("/cdata.SQLClient/ExecuteWrite");
            assert("/cdata.SQLClient/GetLogicalStoragePolicy"@.len() != "/cdata.SQLClient/ExecuteWrite"@.len());
            reveal_strlit("/cdata.SQLClient/ExecuteCooperativeWrite");
            assert("/cdata.SQLClient/GetLogicalStoragePolicy"@[17] != "/cdata.SQLClient/ExecuteCooperativeWrite"@[17]);
            reveal_strlit("/cdata.SQLClient/HasTable");
            assert("/cdata.SQLClient/GetLogicalStoragePolicy"@.len() != "/cdata.SQLClient/HasTable"@.len());
            reveal_strlit("/cdata.SQLClient/SetLogicalStoragePolicy");
            assert("/cdata.SQLClient/GetLogicalStoragePolicy"@[17] != "/cdata.SQLClient/SetLogicalStoragePolicy"@[17]);
        },
        SqlClientMethod::GenerateContract => {
            reveal_strlit("/cdata.SQLClient/GenerateContract");
            reveal_strlit("/cdata.SQLClient/IsOnline");
            assert("/cdata.SQLClient/GenerateContract"@.len() != "/cdata.SQLClient/IsOnline"@.len());
            reveal_strlit("/cdata.SQLClient/CreateUserDatabase");
            assert("/cdata.SQLClient/GenerateContract"@.len() != "/cdata.SQLClient/CreateUserDatabase"@.len());
            reveal_strlit("/cdata.SQLClient/EnableCoooperativeFeatures");
            assert("/cdata.SQLClient/GenerateContract"@.len() != "/cdata.SQLClient/EnableCoooperativeFeatures"@.len());
            reveal_strlit("/cdata.SQLClient/ExecuteRead");
            assert("/cdata.SQLClient/GenerateContract"@.len() != "/cdata.SQLClient/ExecuteRead"@.len());
            reveal_strlit("/cdata.SQLClient/ExecuteCooperativeRead");
            assert("/cdata.SQLClient/GenerateContract"@.len() != "/cdata.SQLClient/ExecuteCooperativeRead"@.len());
            reveal_strlit("/cdata.SQLClient/ExecuteWrite");
            assert("/cdata.SQLClient/GenerateContract"@.len() != "/cdata.SQLClient/ExecuteWrite"@.len());
            reveal_strlit("/cdata.SQLClient/ExecuteCooperativeWrite");
            assert("/cdata.SQLClient/GenerateContract"@.len() != "/cdata.SQLClient/ExecuteCooperativeWrite"@.len());
            reveal_strlit("/cdata.SQLClient/HasTable");
            assert("/cdata.SQLClient/GenerateContract"@.len() != "/cdata.SQLClient/HasTable"@.len());
            reveal_strlit("/cdata.SQLClient/SetLogicalStoragePolicy");
            assert("/cdata.SQLClient/GenerateContract"@.len() != "/cdata.SQLClient/SetLogicalStoragePolicy"@.len());
            reveal_strlit("/cdata.SQLClient/GetLogicalStoragePolicy");
            assert("/cdata.SQLClient/GenerateContract"@.len() != "/cdata.SQLClient/GetLogicalStoragePolicy"@.len());
        },
        SqlClientMethod::AddParticipant => {
            reveal_strlit("/cdata.SQLClient/AddParticipant");
            reveal_strlit("/cdata.SQLClient/IsOnline");
            assert("/cdata.SQLClient/AddParticipant"@.len() != "/cdata.SQLClient/IsOnline"@.len());
            reveal_strlit("/cdata.SQLClient/CreateUserDatabase");
            assert("/cdata.SQLClient/AddParticipant"@.len() != "/cdata.SQLClient/CreateUserDatabase"@.len());
            reveal_strlit("/cdata.SQLClient/EnableCoooperativeFeatures");
            assert("/cdata.SQLClient/AddParticipant"@.len() != "/cdata.SQLClient/EnableCoooperativeFeatures"@.len());
            reveal_strlit("/cdata.SQLClient/ExecuteRead");
            assert("/cdata.SQLClient/AddParticipant"@.len() != "/cdata.SQLClient/ExecuteRead"@.len());
            reveal_strlit("/cdata.SQLClient/ExecuteCooperativeRead");
            assert("/cdata.SQLClient/AddParticipant"@.len() != "/cdata.SQLClient/ExecuteCooperativeRead"@.len());
            reveal_strlit("/cdata.SQLClient/ExecuteWrite");
            assert("/cdata.SQLClient/AddParticipant"@.len() != "/cdata.SQLClient/ExecuteWrite"@.len());
            reveal_strlit("/cdata.SQLClient/ExecuteCooperativeWrite");
            assert("/cdata.SQLClient/AddParticipant"@.len() != "/cdata.SQLClient/ExecuteCooperativeWrite"@.len());
            reveal_strlit("/cdata.SQLClient/HasTable");
            assert("/cdata.SQLClient/AddParticipant"@.len() != "/cdata.SQLClient/HasTable"@.len());
            reveal_strlit("/cdata.SQLClient/SetLogicalStoragePolicy");
            assert("/cdata.SQLClient/AddParticipant"@.len() != "/cdata.SQLClient/SetLogicalStoragePolicy"@.len());
            reveal_strlit("/cdata.SQLClient/GetLogicalStoragePolicy");
            assert("/cdata.SQLClient/AddParticipant"@.len() != "/cdata.SQLClient/GetLogicalStoragePolicy"@.len());
            reveal_strlit("/cdata.SQLClient/GenerateContract");
            assert("/cdata.SQLClient/AddParticipant"@.len() != "/cdata.SQLClient/GenerateContract"@.len());
        },
        SqlClientMethod::SendParticipantContract => {
            reveal_strlit("/cdata.SQLClient/SendParticipantContract");
            reveal_strlit("/cdata.SQLClient/IsOnline");
            assert("/cdata.SQLClient/SendParticipantContract"@.len() != "/cdata.SQLClient/IsOnline"@.len());
            reveal_strlit("/cdata.SQLClient/CreateUserDatabase");
            assert("/cdata.SQLClient/SendParticipantContract"@.len() != "/cdata.SQLClient/CreateUserDatabase"@.len());
            reveal_strlit("/cdata.SQLClient/EnableCoooperativeFeatures");
            assert("/cdata.SQLClient/SendParticipantContract"@.len() != "/cdata.SQLClient/EnableCoooperativeFeatures"@.len());
            reveal_strlit("/cdata.SQLClient/ExecuteRead");
            assert("/cdata.SQLClient/SendParticipantContract"@.len() != "/cdata.SQLClient/ExecuteRead"@.len());
            reveal_strlit("/cdata.SQLClient/ExecuteCooperativeRead");
            assert("/cdata.SQLClient/SendParticipantContract"@.len() != "/cdata.SQLClient/ExecuteCooperativeRead"@.len());
            reveal_strlit("/cdata.SQLClient/ExecuteWrite");
            assert("/cdata.SQLClient/SendParticipantContract"@.len() != "/cdata.SQLClient/ExecuteWrite"@.len());
            reveal_strlit("/cdata.SQLClient/ExecuteCooperativeWrite");
            assert("/cdata.SQLClient/SendParticipantContract"@[17] != "/cdata.SQLClient/ExecuteCooperativeWrite"@[17]);
            reveal_strlit("/cdata.SQLClient/HasTable");
            assert("/cdata.SQLClient/SendParticipantContract"@.len() != "/cdata.SQLClient/HasTable"@.len());
            reveal_strlit("/cdata.SQLClient/SetLogicalStoragePolicy");
            assert("/cdata.SQLClient/SendParticipantContract"@[19] != "/cdata.SQLClient/SetLogicalStoragePolicy"@[19]);
            reveal_strlit("/cdata.SQLClient/GetLogicalStoragePolicy");
            assert("/cdata.SQLClient/SendParticipantContract"@[17] != "/cdata.SQLClient/GetLogicalStoragePolicy"@[17]);
            reveal_strlit("/cdata.SQLClient/GenerateContract");
            assert("/cdata.SQLClient/SendParticipantContract"@.len() != "/cdata.SQLClient/GenerateContract"@.len());
            reveal_strlit("/cdata.SQLClient/AddParticipant");
            assert("/cdata.SQLClient/SendParticipantContract"@.len() != "/cdata.SQLClient/AddParticipant"@.len());
        },
        SqlClientMethod::ReviewPendingContracts => {
            reveal_strlit("/cdata.SQLClient/ReviewPendingContracts");
            reveal_strlit("/cdata.SQLClient/IsOnline");
            assert("/cdata.SQLClient/ReviewPendingContracts"@.len() != "/cdata.SQLClient/IsOnline"@.len());
            reveal_strlit("/cdata.SQLClient/CreateUserDatabase");
            assert("/cdata.SQLClient/ReviewPendingContracts"@.len() != "/cdata.SQLClient/CreateUserDatabase"@.len());
            reveal_strlit("/cdata.SQLClient/EnableCoooperativeFeatures");
            assert("/cdata.SQLClient/ReviewPendingContracts"@.len() != "/cdata.SQLClient/EnableCoooperativeFeatures"@.len());
            reveal_strlit("/cdata.SQLClient/ExecuteRead");
            assert("/cdata.SQLClient/ReviewPendingContracts"@.len() != "/cdata.SQLClient/ExecuteRead"@.len());
            reveal_strlit("/cdata.SQLClient/ExecuteCooperativeRead");
            assert("/cdata.SQLClient/ReviewPendingContracts"@[17] != "/cdata.SQLClient/ExecuteCooperativeRead"@[17]);
            reveal_strlit("/cdata.SQLClient/ExecuteWrite");
            assert("/cdata.SQLClient/ReviewPendingContracts"@.len() != "/cdata.SQLClient/ExecuteWrite"@.len());
            reveal_strlit("/cdata.SQLClient/ExecuteCooperativeWrite");
            assert("/cdata.SQLClient/ReviewPendingContracts"@.len() != "/cdata.SQLClient/ExecuteCooperativeWrite"@.len());
            reveal_strlit("/cdata.SQLClient/HasTable");
            assert("/cdata.SQLClient/ReviewPendingContracts"@.len() != "/cdata.SQLClient/HasTable"@.len());
            reveal_strlit("/cdata.SQLClient/SetLogicalStoragePolicy");
            assert("/cdata.SQLClient/ReviewPendingContracts"@.len() != "/cdata.SQLClient/SetLogicalStoragePolicy"@.len());
            reveal_strlit("/cdata.SQLClient/GetLogicalStoragePolicy");
            assert("/cdata.SQLClient/ReviewPendingContracts"@.len() != "/cdata.SQLClient/GetLogicalStoragePolicy"@.len());
            reveal_strlit("/cdata.SQLClient/GenerateContract");
            assert("/cdata.SQLClient/ReviewPendingContracts"@.len() != "/cdata.SQLClient/GenerateContract"@.len());
            reveal_strlit("/cdata.SQLClient/AddParticipant");
            assert("/cdata.SQLClient/ReviewPendingContracts"@.len() != "/cdata.SQLClient/AddParticipant"@.len());
            reveal_strlit("/cdata.SQLClient/SendParticipantContract");
            assert("/cdata.SQLClient/ReviewPendingContracts"@.len() != "/cdata.SQLClient/SendParticipantContract"@.len());
        },
        SqlClientMethod::AcceptPendingContract => {
            reveal_strlit("/cdata.SQLClient/AcceptPendingContract");
            reveal_strlit("/cdata.SQLClient/IsOnline");
            assert("/cdata.SQLClient/AcceptPendingContract"@.len() != "/cdata.SQLClient/IsOnline"@.len());
            reveal_strlit("/cdata.SQLClient/CreateUserDatabase");
            assert("/cdata.SQLClient/AcceptPendingContract"@.len() != "/cdata.SQLClient/CreateUserDatabase"@.len());
            reveal_strlit("/cdata.SQLClient/EnableCoooperativeFeatures");
            assert("/cdata.SQLClient/AcceptPendingContract"@.len() != "/cdata.SQLClient/EnableCoooperativeFeatures"@.len());
            reveal_strlit("/cdata.SQLClient/ExecuteRead");
            assert("/cdata.SQLClient/AcceptPendingContract"@.len() != "/cdata.SQLClient/ExecuteRead"@.len());
            reveal_strlit("/cdata.SQLClient/ExecuteCooperativeRead");
            assert("/cdata.SQLClient/AcceptPendingContract"@.len() != "/cdata.SQLClient/ExecuteCooperativeRead"@.len());
            reveal_strlit("/cdata.SQLClient/ExecuteWrite");
            assert("/cdata.SQLClient/AcceptPendingContract"@.len() != "/cdata.SQLClient/ExecuteWrite"@.len());
            reveal_strlit("/cdata.SQLClient/ExecuteCooperativeWrite");
            assert("/cdata.SQLClient/AcceptPendingContract"@.len() != "/cdata.SQLClient/ExecuteCooperativeWrite"@.len());
            reveal_strlit("/cdata.SQLClient/HasTable");
            assert("/cdata.SQLClient/AcceptPendingContract"@.len() != "/cdata.SQLClient/HasTable"@.len());
            reveal_strlit("/cdata.SQLClient/SetLogicalStoragePolicy");
            assert("/cdata.SQLClient/AcceptPendingContract"@.len() != "/cdata.SQLClient/SetLogicalStoragePolicy"@.len());
            reveal_strlit("/cdata.SQLClient/GetLogicalStoragePolicy");
            assert("/cdata.SQLClient/AcceptPendingContract"@.len() != "/cdata.SQLClient/GetLogicalStoragePolicy"@.len());
            reveal_strlit("/cdata.SQLClient/GenerateContract");
            assert("/cdata.SQLClient/AcceptPendingContract"@.len() != "/cdata.SQLClient/GenerateContract"@.len());
            reveal_strlit("/cdata.SQLClient/AddParticipant");
            assert("/cdata.SQLClient/AcceptPendingContract"@.len() != "/cdata.SQLClient/AddParticipant"@.len());
            reveal_strlit("/cdata.SQLClient/SendParticipantContract");
            assert("/cdata.SQLClient/AcceptPendingContract"@.len() != "/cdata.SQLClient/SendParticipantContract"@.len());
            reveal_strlit("/cdata.SQLClient/ReviewPendingContracts");
            assert("/cdata.SQLClient/AcceptPendingContract"@.len() != "/cdata.SQLClient/ReviewPendingContracts"@.len());
        },
        SqlClientMethod::RejectPendingContract => {
            reveal_strlit("/cdata.SQLClient/RejectPendingContract");
            reveal_strlit("/cdata.SQLClient/IsOnline");
            assert("/cdata.SQLClient/RejectPendingContract"@.len() != "/cdata.SQLClient/IsOnline"@.len());
            reveal_strlit("/cdata.SQLClient/CreateUserDatabase");
            assert("/cdata.SQLClient/RejectPendingContract"@.len() != "/cdata.SQLClient/CreateUserDatabase"@.len());
            reveal_strlit("/cdata.SQLClient/EnableCoooperativeFeatures");
            assert("/cdata.SQLClient/RejectPendingContract"@.len() != "/cdata.SQLClient/EnableCoooperativeFeatures"@.len());
            reveal_strlit("/cdata.SQLClient/ExecuteRead");
            assert("/cdata.SQLClient/RejectPendingContract"@.len() != "/cdata.SQLClient/ExecuteRead"@.len());
            reveal_strlit("/cdata.SQLClient/ExecuteCooperativeRead");
            assert("/cdata.SQLClient/RejectPendingContract"@.len() != "/cdata.SQLClient/ExecuteCooperativeRead"@.len());
            reveal_strlit("/cdata.SQLClient/ExecuteWrite");
            assert("/cdata.SQLClient/RejectPendingContract"@.len() != "/cdata.SQLClient/ExecuteWrite"@.len());
            reveal_strlit("/cdata.SQLClient/ExecuteCooperativeWrite");
            assert("/cdata.SQLClient/RejectPendingContract"@.len() != "/cdata.SQLClient/ExecuteCooperativeWrite"@.len());
            reveal_strlit("/cdata.SQLClient/HasTable");
            assert("/cdata.SQLClient/RejectPendingContract"@.len() != "/cdata.SQLClient/HasTable"@.len());
            reveal_strlit("/cdata.SQLClient/SetLogicalStoragePolicy");
            assert("/cdata.SQLClient/RejectPendingContract"@.len() != "/cdata.SQLClient/SetLogicalStoragePolicy"@.len());
            reveal_strlit("/cdata.SQLClient/GetLogicalStoragePolicy");
            assert("/cdata.SQLClient/RejectPendingContract"@.len() != "/cdata.SQLClient/GetLogicalStoragePolicy"@.len());
            reveal_strlit("/cdata.SQLClient/GenerateContract");
            assert("/cdata.SQLClient/RejectPendingContract"@.len() != "/cdata.SQLClient/GenerateContract"@.len());
            reveal_strlit("/cdata.SQLClient/AddParticipant");
            assert("/cdata.SQLClient/RejectPendingContract"@.len() != "/cdata.SQLClient/AddParticipant"@.len());
            reveal_strlit("/cdata.SQLClient/SendParticipantContract");
            assert("/cdata.SQLClient/RejectPendingContract"@.len() != "/cdata.SQLClient/SendParticipantContract"@.len());
            reveal_strlit("/cdata.SQLClient/ReviewPendingContracts");
            assert("/cdata.SQLClient/RejectPendingContract"@.len() != "/cdata.SQLClient/ReviewPendingContracts"@.len());
            reveal_strlit("/cdata.SQLClient/AcceptPendingContract");
            assert("/cdata.SQLClient/RejectPendingContract"@[17] != "/cdata.SQLClient/AcceptPendingContract"@[17]);
        },
        SqlClientMethod::GenerateHostInfo => {
            reveal_strlit("/cdata.SQLClient/GenerateHostInfo");
            reveal_strlit("/cdata.SQLClient/IsOnline");
            assert("/cdata.SQLClient/GenerateHostInfo"@.len() != "/cdata.SQLClient/IsOnline"@.len());
            reveal_strlit("/cdata.SQLClient/CreateUserDatabase");
            assert("/cdata.SQLClient/GenerateHostInfo"@.len() != "/cdata.SQLClient/CreateUserDatabase"@.len());
            reveal_strlit("/cdata.SQLClient/EnableCoooperativeFeatures");
            assert("/cdata.SQLClient/GenerateHostInfo"@.len() != "/cdata.SQLClient/EnableCoooperativeFeatures"@.len());
            reveal_strlit("/cdata.SQLClient/ExecuteRead");
            assert("/cdata.SQLClient/GenerateHostInfo"@.len() != "/cdata.SQLClient/ExecuteRead"@.len());
            reveal_strlit("/cdata.SQLClient/ExecuteCooperativeRead");
            assert("/cdata.SQLClient/GenerateHostInfo"@.len() != "/cdata.SQLClient/ExecuteCooperativeRead"@.len());
            reveal_strlit("/cdata.SQLClient/ExecuteWrite");
            assert("/cdata.SQLClient/GenerateHostInfo"@.len() != "/cdata.SQLClient/ExecuteWrite"@.len());
            reveal_strlit("/cdata.SQLClient/ExecuteCooperativeWrite");
            assert("/cdata.SQLClient/GenerateHostInfo"@.len() != "/cdata.SQLClient/ExecuteCooperativeWrite"@.len());
            reveal_strlit("/cdata.SQLClient/HasTable");
            assert("/cdata.SQLClient/GenerateHostInfo"@.len() != "/cdata.SQLClient/HasTable"@.len());
            reveal_strlit("/cdata.SQLClient/SetLogicalStoragePolicy");
            assert("/cdata.SQLClient/GenerateHostInfo"@.len() != "/cdata.SQLClient/SetLogicalStoragePolicy"@.len());
            reveal_strlit("/cdata.SQLClient/GetLogicalStoragePolicy");
            assert("/cdata.SQLClient/GenerateHostInfo"@.len() != "/cdata.SQLClient/GetLogicalStoragePolicy"@.len());
            reveal_strlit("/cdata.SQLClient/GenerateContract");
            assert("/cdata.SQLClient/GenerateHostInfo"@[25] != "/cdata.SQLClient/GenerateContract"@[25]);
            reveal_strlit("/cdata.SQLClient/AddParticipant");
            assert("/cdata.SQLClient/GenerateHostInfo"@.len() != "/cdata.SQLClient/AddParticipant"@.len());
            reveal_strlit("/cdata.SQLClient/SendParticipantContract");
            assert("/cdata.SQLClient/GenerateHostInfo"@.len() != "/cdata.SQLClient/SendParticipantContract"@.len());
            reveal_strlit("/cdata.SQLClient/ReviewPendingContracts");
            assert("/cdata.SQLClient/GenerateHostInfo"@.len() != "/cdata.SQLClient/ReviewPendingContracts"@.len());
            reveal_strlit("/cdata.SQLClient/AcceptPendingContract");
            assert("/cdata.SQLClient/GenerateHostInfo"@.len() != "/cdata.SQLClient/AcceptPendingContract"@.len());
            reveal_strlit("/cdata.SQLClient/RejectPendingContract");
            assert("/cdata.SQLClient/GenerateHostInfo"@.len() != "/cdata.SQLClient/RejectPendingContract"@.len());
        },
    }
}

/// The methods of the data service.
#[derive(Debug, PartialEq, Eq, Structural, Copy, Clone)]
pub enum DataServiceMethod {
    IsOnline,
    CreatePartialDatabase,
    CreateTableInDatabase,
    InsertRowIntoTable,
    InsertCommandIntoTable,
    UpdateRowInTable,
    GetRowsFromTable,
    GetRowFromPartialDatabase,
    SaveContract,
    AcceptContract,
    RemoveRowFromPartialDatabase,
    UpdateRowDataHashForHost,
    NotifyHostOfRemovedRow,
}

/// The request path of a method of the data service.
pub open spec fn data_service_method_path_of(m: DataServiceMethod) -> Seq<char> {
    match m {
        DataServiceMethod::IsOnline => "/cdata.DataService/IsOnline"@,
        DataServiceMethod::CreatePartialDatabase => "/cdata.DataService/CreatePartialDatabase"@,
        DataServiceMethod::CreateTableInDatabase => "/cdata.DataService/CreateTableInDatabase"@,
        DataServiceMethod::InsertRowIntoTable => "/cdata.DataService/InsertRowIntoTable"@,
        DataServiceMethod::InsertCommandIntoTable => "/cdata.DataService/InsertCommandIntoTable"@,
        DataServiceMethod::UpdateRowInTable => "/cdata.DataService/UpdateRowInTable"@,
        DataServiceMethod::GetRowsFromTable => "/cdata.DataService/GetRowsFromTable"@,
        DataServiceMethod::GetRowFromPartialDatabase => "/cdata.DataService/GetRowFromPartialDatabase"@,
        DataServiceMethod::SaveContract => "/cdata.DataService/SaveContract"@,
        DataServiceMethod::AcceptContract => "/cdata.DataService/AcceptContract"@,
        DataServiceMethod::RemoveRowFromPartialDatabase => "/cdata.DataService/RemoveRowFromPartialDatabase"@,
        DataServiceMethod::UpdateRowDataHashForHost => "/cdata.DataService/UpdateRowDataHashForHost"@,
        DataServiceMethod::NotifyHostOfRemovedRow => "/cdata.DataService/NotifyHostOfRemovedRow"@,
    }
}

/// The method of the data service that a request path names, if any.
pub open spec fn data_service_method_of_path(p: Seq<char>) -> Option<DataServiceMethod> {
    if p == "/cdata.DataService/IsOnline"@ {
        Some(DataServiceMethod::IsOnline)
    } else if p == "/cdata.DataService/CreatePartialDatabase"@ {
        Some(DataServiceMethod::CreatePartialDatabase)
    } else if p == "/cdata.DataService/CreateTableInDatabase"@ {
        Some(DataServiceMethod::CreateTableInDatabase)
    } else if p == "/cdata.DataService/InsertRowIntoTable"@ {
        Some(DataServiceMethod::InsertRowIntoTable)
    } else if p == "/cdata.DataService/InsertCommandIntoTable"@ {
        Some(DataServiceMethod::InsertCommandIntoTable)
    } else if p == "/cdata.DataService/UpdateRowInTable"@ {
        Some(DataServiceMethod::UpdateRowInTable)
    } else if p == "/cdata.DataService/GetRowsFromTable"@ {
        Some(DataServiceMethod::GetRowsFromTable)
    } else if p == "/cdata.DataService/GetRowFromPartialDatabase"@ {
        Some(DataServiceMethod::GetRowFromPartialDatabase)
    } else if p == "/cdata.DataService/SaveContract"@ {
        Some(DataServiceMethod::SaveContract)
    } else if p == "/cdata.DataService/AcceptContract"@ {
        Some(DataServiceMethod::AcceptContract)
    } else if p == "/cdata.DataService/RemoveRowFromPartialDatabase"@ {
        Some(DataServiceMethod::RemoveRowFromPartialDatabase)
    } else if p == "/cdata.DataService/UpdateRowDataHashForHost"@ {
        Some(DataServiceMethod::UpdateRowDataHashForHost)
    } else if p == "/cdata.DataService/NotifyHostOfRemovedRow"@ {
        Some(DataServiceMethod::NotifyHostOfRemovedRow)
    } else {
        None
    }
}

/// The request path of a method of the data service, as its client sends it.
pub fn data_service_method_path(m: DataServiceMethod) -> (r: &'static str)
    ensures
        r@ == data_service_method_path_of(m),
{
    match m {
        DataServiceMethod::IsOnline => "/cdata.DataService/IsOnline",
        DataServiceMethod::CreatePartialDatabase => "/cdata.DataService/CreatePartialDatabase",
        DataServiceMethod::CreateTableInDatabase => "/cdata.DataService/CreateTableInDatabase",
        DataServiceMethod::InsertRowIntoTable => "/cdata.DataService/InsertRowIntoTable",
        DataServiceMethod::InsertCommandIntoTable => "/cdata.DataService/InsertCommandIntoTable",
        DataServiceMethod::UpdateRowInTable => "/cdata.DataService/UpdateRowInTable",
        DataServiceMethod::GetRowsFromTable => "/cdata.DataService/GetRowsFromTable",
        DataServiceMethod::GetRowFromPartialDatabase => "/cdata.DataService/GetRowFromPartialDatabase",
        DataServiceMethod::SaveContract => "/cdata.DataService/SaveContract",
        DataServiceMethod::AcceptContract => "/cdata.DataService/AcceptContract",
        DataServiceMethod::RemoveRowFromPartialDatabase => "/cdata.DataService/RemoveRowFromPartialDatabase",
        DataServiceMethod::UpdateRowDataHashForHost => "/cdata.DataService/UpdateRowDataHashForHost",
        DataServiceMethod::NotifyHostOfRemovedRow => "/cdata.DataService/NotifyHostOfRemovedRow",
    }
}

/// The method of the data service that a request's path names; none for a
/// path it does not serve, which is answered as unimplemented (see
/// `UNIMPLEMENTED_STATUS`).
pub fn data_service_method_route(path: &str) -> (r: Option<DataServiceMethod>)
    ensures
        r == data_service_method_of_path(path@),
{
    if text_eq(path, "/cdata.DataService/IsOnline") {
        return Some(DataServiceMethod::IsOnline);
    }
    if text_eq(path, "/cdata.DataService/CreatePartialDatabase") {
        return Some(DataServiceMethod::CreatePartialDatabase);
    }
    if text_eq(path, "/cdata.DataService/CreateTableInDatabase") {
        return Some(DataServiceMethod::CreateTableInDatabase);
    }
    if text_eq(path, "/cdata.DataService/InsertRowIntoTable") {
        return Some(DataServiceMethod::InsertRowIntoTable);
    }
    if text_eq(path, "/cdata.DataService/InsertCommandIntoTable") {
        return Some(DataServiceMethod::InsertCommandIntoTable);
    }
    if text_eq(path, "/cdata.DataService/UpdateRowInTable") {
        return Some(DataServiceMethod::UpdateRowInTable);
    }
    if text_eq(path, "/cdata.DataService/GetRowsFromTable") {
        return Some(DataServiceMethod::GetRowsFromTable);
    }
    if text_eq(path, "/cdata.DataService/GetRowFromPartialDatabase") {
        return Some(DataServiceMethod::GetRowFromPartialDatabase);
    }
    if text_eq(path, "/cdata.DataService/SaveContract") {
        return Some(DataServiceMethod::SaveContract);
    }
    if text_eq(path, "/cdata.DataService/AcceptContract") {
        return Some(DataServiceMethod::AcceptContract);
    }
    if text_eq(path, "/cdata.DataService/RemoveRowFromPartialDatabase") {
        return Some(DataServiceMethod::RemoveRowFromPartialDatabase);
    }
    if text_eq(path, "/cdata.DataService/UpdateRowDataHashForHost") {
        return Some(DataServiceMethod::UpdateRowDataHashForHost);
    }
    if text_eq(path, "/cdata.DataService/NotifyHostOfRemovedRow") {
        return Some(DataServiceMethod::NotifyHostOfRemovedRow);
    }
    None
}

/// A request sent by the client of a method of the data service is served by
/// that method.
pub proof fn law_data_service_method_paths_route_back(m: DataServiceMethod)
    ensures
        data_service_method_of_path(data_service_method_path_of(m)) == Some(m),
{
    match m {
        DataServiceMethod::IsOnline => {
            reveal_strlit("/cdata.DataService/IsOnline");
        },
        DataServiceMethod::CreatePartialDatabase => {
            reveal_strlit("/cdata.DataService/CreatePartialDatabase");
            reveal_strlit("/cdata.DataService/IsOnline");
            assert("/cdata.DataService/CreatePartialDatabase"@.len() != "/cdata.DataService/IsOnline"@.len());
        },
        DataServiceMethod::CreateTableInDatabase => {
            reveal_strlit("/cdata.DataService/CreateTableInDatabase");
            reveal_strlit("/cdata.DataService/IsOnline");
            assert("/cdata.DataService/CreateTableInDatabase"@.len() != "/cdata.DataService/IsOnline"@.len());
            reveal_strlit("/cdata.DataService/CreatePartialDatabase");
            assert("/cdata.DataService/CreateTableInDatabase"@[25] != "/cdata.DataService/CreatePartialDatabase"@[25]);
        },
        DataServiceMethod::InsertRowIntoTable => {
            reveal_strlit("/cdata.DataService/InsertRowIntoTable");
            reveal_strlit("/cdata.DataService/IsOnline");
            assert("/cdata.DataService/InsertRowIntoTable"@.len() != "/cdata.DataService/IsOnline"@.len());
            reveal_strlit("/cdata.DataService/CreatePartialDatabase");
            assert("/cdata.DataService/InsertRowIntoTable"@.len() != "/cdata.DataService/CreatePartialDatabase"@.len());
            reveal_strlit("/cdata.DataService/CreateTableInDatabase");
            assert("/cdata.DataService/InsertRowIntoTable"@.len() != "/cdata.DataService/CreateTableInDatabase"@.len());
        },
        DataServiceMethod::InsertCommandIntoTable => {
            reveal_strlit("/cdata.DataService/InsertCommandIntoTable");
            reveal_strlit("/cdata.DataService/IsOnline");
            assert("/cdata.DataService/InsertCommandIntoTable"@.len() != "/cdata.DataService/IsOnline"@.len());
            reveal_strlit("/cdata.DataService/CreatePartialDatabase");
            assert("/cdata.DataService/InsertCommandIntoTable"@.len() != "/cdata.DataService/CreatePartialDatabase"@.len());
            reveal_strlit("/cdata.DataService/CreateTableInDatabase");
            assert("/cdata.DataService/InsertCommandIntoTable"@.len() != "/cdata.DataService/CreateTableInDatabase"@.len());
            reveal_strlit("/cdata.DataService/InsertRowIntoTable");
            assert("/cdata.DataService/InsertCommandIntoTable"@.len() != "/cdata.DataService/InsertRowIntoTable"@.len());
        },
        DataServiceMethod::UpdateRowInTable => {
            reveal_strlit("/cdata.DataService/UpdateRowInTable");
            reveal_strlit("/cdata.DataService/IsOnline");
            assert("/cdata.DataService/UpdateRowInTable"@.len() != "/cdata.DataService/IsOnline"@.len());
            reveal_strlit("/cdata.DataService/CreatePartialDatabase");
            assert("/cdata.DataService/UpdateRowInTable"@.len() != "/cdata.DataService/CreatePartialDatabase"@.len());
            reveal_strlit("/cdata.DataService/CreateTableInDatabase");
            assert("/cdata.DataService/UpdateRowInTable"@.len() != "/cdata.DataService/CreateTableInDatabase"@.len());
            reveal_strlit("/cdata.DataService/InsertRowIntoTable");
            assert("/cdata.DataService/UpdateRowInTable"@.len() != "/cdata.DataService/InsertRowIntoTable"@.len());
            reveal_strlit("/cdata.DataService/InsertCommandIntoTable");
            assert("/cdata.DataService/UpdateRowInTable"@.len() != "/cdata.DataService/InsertCommandIntoTable"@.len());
        },
        DataServiceMethod::GetRowsFromTable => {
            reveal_strlit("/cdata.DataService/GetRowsFromTable");
            reveal_strlit("/cdata.DataService/IsOnline");
            assert("/cdata.DataService/GetRowsFromTable"@.len() != "/cdata.DataService/IsOnline"@.len());
            reveal_strlit("/cdata.DataService/CreatePartialDatabase");
            assert("/cdata.DataService/GetRowsFromTable"@.len() != "/cdata.DataService/CreatePartialDatabase"@.len());
            reveal_strlit("/cdata.DataService/CreateTableInDatabase");
            assert("/cdata.DataService/GetRowsFromTable"@.len() != "/cdata.DataService/CreateTableInDatabase"@.len());
            reveal_strlit("/cdata.DataService/InsertRowIntoTable");
            assert("/cdata.DataService/GetRowsFromTable"@.len() != "/cdata.DataService/InsertRowIntoTable"@.len());
            reveal_strlit("/cdata.DataService/InsertCommandIntoTable");
            assert("/cdata.DataService/GetRowsFromTable"@.len() != "/cdata.DataService/InsertCommandIntoTable"@.len());
            reveal_strlit("/cdata.DataService/UpdateRowInTable");
            assert("/cdata.DataService/GetRowsFromTable"@[19] != "/cdata.DataService/UpdateRowInTable"@[19]);
        },
        DataServiceMethod::GetRowFromPartialDatabase => {
            reveal_strlit("/cdata.DataService/GetRowFromPartialDatabase");
            reveal_strlit("/cdata.DataService/IsOnline");
            assert("/cdata.DataService/GetRowFromPartialDatabase"@.len() != "/cdata.DataService/IsOnline"@.len());
            reveal_strlit("/cdata.DataService/CreatePartialDatabase");
            assert("/cdata.DataService/GetRowFromPartialDatabase"@.len() != "/cdata.DataService/CreatePartialDatabase"@.len());
            reveal_strlit("/cdata.DataService/CreateTableInDatabase");
            assert("/cdata.DataService/GetRowFromPartialDatabase"@.len() != "/cdata.DataService/CreateTableInDatabase"@.len());
            reveal_strlit("/cdata.DataService/InsertRowIntoTable");
            assert("/cdata.DataService/GetRowFromPartialDatabase"@.len() != "/cdata.DataService/InsertRowIntoTable"@.len());
            reveal_strlit("/cdata.DataService/InsertCommandIntoTable");
            assert("/cdata.DataService/GetRowFromPartialDatabase"@.len() != "/cdata.DataService/InsertCommandIntoTable"@.len());
            reveal_strlit("/cdata.DataService/UpdateRowInTable");
            assert("/cdata.DataService/GetRowFromPartialDatabase"@.len() != "/cdata.DataService/UpdateRowInTable"@.len());
            reveal_strlit("/cdata.DataService/GetRowsFromTable");
            assert("/cdata.DataService/GetRowFromPartialDatabase"@.len() != "/cdata.DataService/GetRowsFromTable"@.len());
        },
        DataServiceMethod::SaveContract => {
            reveal_strlit("/cdata.DataService/SaveContract");
            reveal_strlit("/cdata.DataService/IsOnline");
            assert("/cdata.DataService/SaveContract"@.len() != "/cdata.DataService/IsOnline"@.len());
            reveal_strlit("/cdata.DataService/CreatePartialDatabase");
            assert("/cdata.DataService/SaveContract"@.len() != "/cdata.DataService/CreatePartialDatabase"@.len());
            reveal_strlit("/cdata.DataService/CreateTableInDatabase");
            assert("/cdata.DataService/SaveContract"@.len() != "/cdata.DataService/CreateTableInDatabase"@.len());
            reveal_strlit("/cdata.DataService/InsertRowIntoTable");
            assert("/cdata.DataService/SaveContract"@.len() != "/cdata.DataService/InsertRowIntoTable"@.len());
            reveal_strlit("/cdata.DataService/InsertCommandIntoTable");
            assert("/cdata.DataService/SaveContract"@.len() != "/cdata.DataService/InsertCommandIntoTable"@.len());
            reveal_strlit("/cdata.DataService/UpdateRowInTable");
            assert("/cdata.DataService/SaveContract"@.len() != "/cdata.DataService/UpdateRowInTable"@.len());
            reveal_strlit("/cdata.DataService/GetRowsFromTable");
            assert("/cdata.DataService/SaveContract"@.len() != "/cdata.DataService/GetRowsFromTable"@.len());
            reveal_strlit("/cdata.DataService/GetRowFromPartialDatabase");
            assert("/cdata.DataService/SaveContract"@.len() != "/cdata.DataService/GetRowFromPartialDatabase"@.len());
        },
        DataServiceMethod::AcceptContract => {
            reveal_strlit("/cdata.DataService/AcceptContract");
            reveal_strlit("/cdata.DataService/IsOnline");
            assert("/cdata.DataService/AcceptContract"@.len() != "/cdata.DataService/IsOnline"@.len());
            reveal_strlit("/cdata.DataService/CreatePartialDatabase");
            assert("/cdata.DataService/AcceptContract"@.len() != "/cdata.DataService/CreatePartialDatabase"@.len());
            reveal_strlit("/cdata.DataService/CreateTableInDatabase");
            assert("/cdata.DataService/AcceptContract"@.len() != "/cdata.DataService/CreateTableInDatabase"@.len());
            reveal_strlit("/cdata.DataService/InsertRowIntoTable");
            assert("/cdata.DataService/AcceptContract"@.len() != "/cdata.DataService/InsertRowIntoTable"@.len());
            reveal_strlit("/cdata.DataService/InsertCommandIntoTable");
            assert("/cdata.DataService/AcceptContract"@.len() != "/cdata.DataService/InsertCommandIntoTable"@.len());
            reveal_strlit("/cdata.DataService/UpdateRowInTable");
            assert("/cdata.DataService/AcceptContract"@.len() != "/cdata.DataService/UpdateRowInTable"@.len());
            reveal_strlit("/cdata.DataService/GetRowsFromTable");
            assert("/cdata.DataService/AcceptContract"@.len() != "/cdata.DataService/GetRowsFromTable"@.len());
            reveal_strlit("/cdata.DataService/GetRowFromPartialDatabase");
            assert("/cdata.DataService/AcceptContract"@.len() != "/cdata.DataService/GetRowFromPartialDatabase"@.len());
            reveal_strlit("/cdata.DataService/SaveContract");
            assert("/cdata.DataService/AcceptContract"@.len() != "/cdata.DataService/SaveContract"@.len());
        },
        DataServiceMethod::RemoveRowFromPartialDatabase => {
            reveal_strlit("/cdata.DataService/RemoveRowFromPartialDatabase");
            reveal_strlit("/cdata.DataService/IsOnline");
            assert("/cdata.DataService/RemoveRowFromPartialDatabase"@.len() != "/cdata.DataService/IsOnline"@.len());
            reveal_strlit("/cdata.DataService/CreatePartialDatabase");
            assert("/cdata.DataService/RemoveRowFromPartialDatabase"@.len() != "/cdata.DataService/CreatePartialDatabase"@.len());
            reveal_strlit("/cdata.DataService/CreateTableInDatabase");
            assert("/cdata.DataService/RemoveRowFromPartialDatabase"@.len() != "/cdata.DataService/CreateTableInDatabase"@.len());
            reveal_strlit("/cdata.DataService/InsertRowIntoTable");
            assert("/cdata.DataService/RemoveRowFromPartialDatabase"@.len() != "/cdata.DataService/InsertRowIntoTable"@.len());
            reveal_strlit("/cdata.DataService/InsertCommandIntoTable");
            assert("/cdata.DataService/RemoveRowFromPartialDatabase"@.len() != "/cdata.DataService/InsertCommandIntoTable"@.len());
            reveal_strlit("/cdata.DataService/UpdateRowInTable");
            assert("/cdata.DataService/RemoveRowFromPartialDatabase"@.len() != "/cdata.DataService/UpdateRowInTable"@.len());
            reveal_strlit("/cdata.DataService/GetRowsFromTable");
            assert("/cdata.DataService/RemoveRowFromPartialDatabase"@.len() != "/cdata.DataService/GetRowsFromTable"@.len());
            reveal_strlit("/cdata.DataService/GetRowFromPartialDatabase");
            assert("/cdata.DataService/RemoveRowFromPartialDatabase"@.len() != "/cdata.DataService/GetRowFromPartialDatabase"@.len());
            reveal_strlit("/cdata.DataService/SaveContract");
            assert("/cdata.DataService/RemoveRowFromPartialDatabase"@.len() != "/cdata.DataService/SaveContract"@.len());
            reveal_strlit("/cdata.DataService/AcceptContract");
            assert("/cdata.DataService/RemoveRowFromPartialDatabase"@.len() != "/cdata.DataService/AcceptContract"@.len());
        },
        DataServiceMethod::UpdateRowDataHashForHost => {
            reveal_strlit("/cdata.DataService/UpdateRowDataHashForHost");
            reveal_strlit("/cdata.DataService/IsOnline");
            assert("/cdata.DataService/UpdateRowDataHashForHost"@.len() != "/cdata.DataService/IsOnline"@.len());
            reveal_strlit("/cdata.DataService/CreatePartialDatabase");
            assert("/cdata.DataService/UpdateRowDataHashForHost"@.len() != "/cdata.DataService/CreatePartialDatabase"@.len());
            reveal_strlit("/cdata.DataService/CreateTableInDatabase");
            assert("/cdata.DataService/UpdateRowDataHashForHost"@.len() != "/cdata.DataService/CreateTableInDatabase"@.len());
            reveal_strlit("/cdata.DataService/InsertRowIntoTable");
            assert("/cdata.DataService/UpdateRowDataHashForHost"@.len() != "/cdata.DataService/InsertRowIntoTable"@.len());
            reveal_strlit("/cdata.DataService/InsertCommandIntoTable");
            assert("/cdata.DataService/UpdateRowDataHashForHost"@.len() != "/cdata.DataService/InsertCommandIntoTable"@.len());
            reveal_strlit("/cdata.DataService/UpdateRowInTable");
            assert("/cdata.DataService/UpdateRowDataHashForHost"@.len() != "/cdata.DataService/UpdateRowInTable"@.len());
            reveal_strlit("/cdata.DataService/GetRowsFromTable");
            assert("/cdata.DataService/UpdateRowDataHashForHost"@.len() != "/cdata.DataService/GetRowsFromTable"@.len());
            reveal_strlit("/cdata.DataService/GetRowFromPartialDatabase");
            assert("/cdata.DataService/UpdateRowDataHashForHost"@.len() != "/cdata.DataService/GetRowFromPartialDatabase"@.len());
            reveal_strlit("/cdata.DataService/SaveContract");
            assert("/cdata.DataService/UpdateRowDataHashForHost"@.len() != "/cdata.DataService/SaveContract"@.len());
            reveal_strlit("/cdata.DataService/AcceptContract");
            assert("/cdata.DataService/UpdateRowDataHashForHost"@.len() != "/cdata.DataService/AcceptContract"@.len());
            reveal_strlit("/cdata.DataService/RemoveRowFromPartialDatabase");
            assert("/cdata.DataService/UpdateRowDataHashForHost"@.len() != "/cdata.DataService/RemoveRowFromPartialDatabase"@.len());
        },
        DataServiceMethod::NotifyHostOfRemovedRow => {
            reveal_strlit("/cdata.DataService/NotifyHostOfRemovedRow");
            reveal_strlit("/cdata.DataService/IsOnline");
            assert("/cdata.DataService/NotifyHostOfRemovedRow"@.len() != "/cdata.DataService/IsOnline"@.len());
            reveal_strlit("/cdata.DataService/CreatePartialDatabase");
            assert("/cdata.DataService/NotifyHostOfRemovedRow"@.len() != "/cdata.DataService/CreatePartialDatabase"@.len());
            reveal_strlit("/cdata.DataService/CreateTableInDatabase");
            assert("/cdata.DataService/NotifyHostOfRemovedRow"@.len() != "/cdata.DataService/CreateTableInDatabase"@.len());
            reveal_strlit("/cdata.DataService/InsertRowIntoTable");
            assert("/cdata.DataService/NotifyHostOfRemovedRow"@.len() != "/cdata.DataService/InsertRowIntoTable"@.len());
            reveal_strlit("/cdata.DataService/InsertCommandIntoTable");
            assert("/cdata.DataService/NotifyHostOfRemovedRow"@[19] != "/cdata.DataService/InsertCommandIntoTable"@[19]);
            reveal_strlit("/cdata.DataService/UpdateRowInTable");
            assert("/cdata.DataService/NotifyHostOfRemovedRow"@.len() != "/cdata.DataService/UpdateRowInTable"@.len());
            reveal_strlit("/cdata.DataService/GetRowsFromTable");
            assert("/cdata.DataService/NotifyHostOfRemovedRow"@.len() != "/cdata.DataService/GetRowsFromTable"@.len());
            reveal_strlit("/cdata.DataService/GetRowFromPartialDatabase");
            assert("/cdata.DataService/NotifyHostOfRemovedRow"@.len() != "/cdata.DataService/GetRowFromPartialDatabase"@.len());
            reveal_strlit("/cdata.DataService/SaveContract");
            assert("/cdata.DataService/NotifyHostOfRemovedRow"@.len() != "/cdata.DataService/SaveContract"@.len());
            reveal_strlit("/cdata.DataService/AcceptContract");
            assert("/cdata.DataService/NotifyHostOfRemovedRow"@.len() != "/cdata.DataService/AcceptContract"@.len());
            reveal_strlit("/cdata.DataService/RemoveRowFromPartialDatabase");
            assert("/cdata.DataService/NotifyHostOfRemovedRow"@.len() != "/cdata.DataService/RemoveRowFromPartialDatabase"@.len());
            reveal_strlit("/cdata.DataService/UpdateRowDataHashForHost");
            assert("/cdata.DataService/NotifyHostOfRemovedRow"@.len() != "/cdata.DataService/UpdateRowDataHashForHost"@.len());
        },
    }
}

/// The name of a method of the client service, as its request path spells it.
pub open spec fn sql_client_method_name(m: SqlClientMethod) -> Seq<char> {
    match m {
        SqlClientMethod::IsOnline => "IsOnline"@,
        SqlClientMethod::CreateUserDatabase => "CreateUserDatabase"@,
        SqlClientMethod::EnableCoooperativeFeatures => "EnableCoooperativeFeatures"@,
        SqlClientMethod::ExecuteRead => "ExecuteRead"@,
        SqlClientMethod::ExecuteCooperativeRead => "ExecuteCooperativeRead"@,
        SqlClientMethod::ExecuteWrite => "ExecuteWrite"@,
        SqlClientMethod::ExecuteCooperativeWrite => "ExecuteCooperativeWrite"@,
        SqlClientMethod::HasTable => "HasTable"@,
        SqlClientMethod::SetLogicalStoragePolicy => "SetLogicalStoragePolicy"@,
        SqlClientMethod::GetLogicalStoragePolicy => "GetLogicalStoragePolicy"@,
        SqlClientMethod::GenerateContract => "GenerateContract"@,
        SqlClientMethod::AddParticipant => "AddParticipant"@,
        SqlClientMethod::SendParticipantContract => "SendParticipantContract"@,
        SqlClientMethod::ReviewPendingContracts => "ReviewPendingContracts"@,
        SqlClientMethod::AcceptPendingContract => "AcceptPendingContract"@,
        SqlClientMethod::RejectPendingContract => "RejectPendingContract"@,
        SqlClientMethod::GenerateHostInfo => "GenerateHostInfo"@,
    }
}

proof fn lemma_sql_client_method_name_path(m: SqlClientMethod)
    ensures
        "/cdata.SQLClient/"@ + sql_client_method_name(m) == sql_client_method_path_of(m),
{
    reveal_strlit("/cdata.SQLClient/");
    match m {
        SqlClientMethod::IsOnline => {
            reveal_strlit("IsOnline");
            reveal_strlit("/cdata.SQLClient/IsOnline");
            assert("/cdata.SQLClient/"@ + "IsOnline"@ =~= "/cdata.SQLClient/IsOnline"@);
        },
        SqlClientMethod::CreateUserDatabase => {
            reveal_strlit("CreateUserDatabase");
            reveal_strlit("/cdata.SQLClient/CreateUserDatabase");
            assert("/cdata.SQLClient/"@ + "CreateUserDatabase"@ =~= "/cdata.SQLClient/CreateUserDatabase"@);
        },
        SqlClientMethod::EnableCoooperativeFeatures => {
            reveal_strlit("EnableCoooperativeFeatures");
            reveal_strlit("/cdata.SQLClient/EnableCoooperativeFeatures");
            assert("/cdata.SQLClient/"@ + "EnableCoooperativeFeatures"@ =~= "/cdata.SQLClient/EnableCoooperativeFeatures"@);
        },
        SqlClientMethod::ExecuteRead => {
            reveal_strlit("ExecuteRead");
            reveal_strlit("/cdata.SQLClient/ExecuteRead");
            assert("/cdata.SQLClient/"@ + "ExecuteRead"@ =~= "/cdata.SQLClient/ExecuteRead"@);
        },
        SqlClientMethod::ExecuteCooperativeRead => {
            reveal_strlit("ExecuteCooperativeRead");
            reveal_strlit("/cdata.SQLClient/ExecuteCooperativeRead");
            assert("/cdata.SQLClient/"@ + "ExecuteCooperativeRead"@ =~= "/cdata.SQLClient/ExecuteCooperativeRead"@);
        },
        SqlClientMethod::ExecuteWrite => {
            reveal_strlit("ExecuteWrite");
            reveal_strlit("/cdata.SQLClient/ExecuteWrite");
            assert("/cdata.SQLClient/"@ + "ExecuteWrite"@ =~= "/cdata.SQLClient/ExecuteWrite"@);
        },
        SqlClientMethod::ExecuteCooperativeWrite => {
            reveal_strlit("ExecuteCooperativeWrite");
            reveal_strlit("/cdata.SQLClient/ExecuteCooperativeWrite");
            assert("/cdata.SQLClient/"@ + "ExecuteCooperativeWrite"@ =~= "/cdata.SQLClient/ExecuteCooperativeWrite"@);
        },
        SqlClientMethod::HasTable => {
            reveal_strlit("HasTable");
            reveal_strlit("/cdata.SQLClient/HasTable");
            assert("/cdata.SQLClient/"@ + "HasTable"@ =~= "/cdata.SQLClient/HasTable"@);
        },
        SqlClientMethod::SetLogicalStoragePolicy => {
            reveal_strlit("SetLogicalStoragePolicy");
            reveal_strlit("/cdata.SQLClient/SetLogicalStoragePolicy");
            assert("/cdata.SQLClient/"@ + "SetLogicalStoragePolicy"@ =~= "/cdata.SQLClient/SetLogicalStoragePolicy"@);
        },
        SqlClientMethod::GetLogicalStoragePolicy => {
            reveal_strlit("GetLogicalStoragePolicy");
            reveal_strlit("/cdata.SQLClient/GetLogicalStoragePolicy");
            assert("/cdata.SQLClient/"@ + "GetLogicalStoragePolicy"@ =~= "/cdata.SQLClient/GetLogicalStoragePolicy"@);
        },
        SqlClientMethod::GenerateContract => {
            reveal_strlit("GenerateContract");
            reveal_strlit("/cdata.SQLClient/GenerateContract");
            assert("/cdata.SQLClient/"@ + "GenerateContract"@ =~= "/cdata.SQLClient/GenerateContract"@);
        },
        SqlClientMethod::AddParticipant => {
            reveal_strlit("AddParticipant");
            reveal_strlit("/cdata.SQLClient/AddParticipant");
            assert("/cdata.SQLClient/"@ + "AddParticipant"@ =~= "/cdata.SQLClient/AddParticipant"@);
        },
        SqlClientMethod::SendParticipantContract => {
            reveal_strlit("SendParticipantContract");
            reveal_strlit("/cdata.SQLClient/SendParticipantContract");
            assert("/cdata.SQLClient/"@ + "SendParticipantContract"@ =~= "/cdata.SQLClient/SendParticipantContract"@);
        },
        SqlClientMethod::ReviewPendingContracts => {
            reveal_strlit("ReviewPendingContracts");
            reveal_strlit("/cdata.SQLClient/ReviewPendingContracts");
            assert("/cdata.SQLClient/"@ + "ReviewPendingContracts"@ =~= "/cdata.SQLClient/ReviewPendingContracts"@);
        },
        SqlClientMethod::AcceptPendingContract => {
            reveal_strlit("AcceptPendingContract");
            reveal_strlit("/cdata.SQLClient/AcceptPendingContract");
            assert("/cdata.SQLClient/"@ + "AcceptPendingContract"@ =~= "/cdata.SQLClient/AcceptPendingContract"@);
        },
        SqlClientMethod::RejectPendingContract => {
            reveal_strlit("RejectPendingContract");
            reveal_strlit("/cdata.SQLClient/RejectPendingContract");
            assert("/cdata.SQLClient/"@ + "RejectPendingContract"@ =~= "/cdata.SQLClient/RejectPendingContract"@);
        },
        SqlClientMethod::GenerateHostInfo => {
            reveal_strlit("GenerateHostInfo");
            reveal_strlit("/cdata.SQLClient/GenerateHostInfo");
            assert("/cdata.SQLClient/"@ + "GenerateHostInfo"@ =~= "/cdata.SQLClient/GenerateHostInfo"@);
        },
    }
}

proof fn lemma_sql_client_method_of_path_named(p: Seq<char>, m: SqlClientMethod)
    requires
        sql_client_method_of_path(p) == Some(m),
    ensures
        p == sql_client_method_path_of(m),
{
}

/// Each request path of the client service is served by the method that it names:
/// a path routes to the method `m` exactly when it is `/cdata.SQLClient/`
/// followed by the name of `m`.
pub proof fn law_sql_client_path_names_its_method(m: SqlClientMethod, p: Seq<char>)
    ensures
        sql_client_method_of_path(p) == Some(m) <==> p == "/cdata.SQLClient/"@ + sql_client_method_name(m),
{
    lemma_sql_client_method_name_path(m);
    law_sql_client_method_paths_route_back(m);
    if sql_client_method_of_path(p) == Some(m) {
        lemma_sql_client_method_of_path_named(p, m);
    }
}

/// The name of a method of the data service, as its request path spells it.
pub open spec fn data_service_method_name(m: DataServiceMethod) -> Seq<char> {
    match m {
        DataServiceMethod::IsOnline => "IsOnline"@,
        DataServiceMethod::CreatePartialDatabase => "CreatePartialDatabase"@,
        DataServiceMethod::CreateTableInDatabase => "CreateTableInDatabase"@,
        DataServiceMethod::InsertRowIntoTable => "InsertRowIntoTable"@,
        DataServiceMethod::InsertCommandIntoTable => "InsertCommandIntoTable"@,
        DataServiceMethod::UpdateRowInTable => "UpdateRowInTable"@,
        DataServiceMethod::GetRowsFromTable => "GetRowsFromTable"@,
        DataServiceMethod::GetRowFromPartialDatabase => "GetRowFromPartialDatabase"@,
        DataServiceMethod::SaveContract => "SaveContract"@,
        DataServiceMethod::AcceptContract => "AcceptContract"@,
        DataServiceMethod::RemoveRowFromPartialDatabase => "RemoveRowFromPartialDatabase"@,
        DataServiceMethod::UpdateRowDataHashForHost => "UpdateRowDataHashForHost"@,
        DataServiceMethod::NotifyHostOfRemovedRow => "NotifyHostOfRemovedRow"@,
    }
}

proof fn lemma_data_service_method_name_path(m: DataServiceMethod)
    ensures
        "/cdata.DataService/"@ + data_service_method_name(m) == data_service_method_path_of(m),
{
    reveal_strlit("/cdata.DataService/");
    match m {
        DataServiceMethod::IsOnline => {
            reveal_strlit("IsOnline");
            reveal_strlit("/cdata.DataService/IsOnline");
            assert("/cdata.DataService/"@ + "IsOnline"@ =~= "/cdata.DataService/IsOnline"@);
        },
        DataServiceMethod::CreatePartialDatabase => {
            reveal_strlit("CreatePartialDatabase");
            reveal_strlit("/cdata.DataService/CreatePartialDatabase");
            assert("/cdata.DataService/"@ + "CreatePartialDatabase"@ =~= "/cdata.DataService/CreatePartialDatabase"@);
        },
        DataServiceMethod::CreateTableInDatabase => {
            reveal_strlit("CreateTableInDatabase");
            reveal_strlit("/cdata.DataService/CreateTableInDatabase");
            assert("/cdata.DataService/"@ + "CreateTableInDatabase"@ =~= "/cdata.DataService/CreateTableInDatabase"@);
        },
        DataServiceMethod::InsertRowIntoTable => {
            reveal_strlit("InsertRowIntoTable");
            reveal_strlit("/cdata.DataService/InsertRowIntoTable");
            assert("/cdata.DataService/"@ + "InsertRowIntoTable"@ =~= "/cdata.DataService/InsertRowIntoTable"@);
        },
        DataServiceMethod::InsertCommandIntoTable => {
            reveal_strlit("InsertCommandIntoTable");
            reveal_strlit("/cdata.DataService/InsertCommandIntoTable");
            assert("/cdata.DataService/"@ + "InsertCommandIntoTable"@ =~= "/cdata.DataService/InsertCommandIntoTable"@);
        },
        DataServiceMethod::UpdateRowInTable => {
            reveal_strlit("UpdateRowInTable");
            reveal_strlit("/cdata.DataService/UpdateRowInTable");
            assert("/cdata.DataService/"@ + "UpdateRowInTable"@ =~= "/cdata.DataService/UpdateRowInTable"@);
        },
        DataServiceMethod::GetRowsFromTable => {
            reveal_strlit("GetRowsFromTable");
            reveal_strlit("/cdata.DataService/GetRowsFromTable");
            assert("/cdata.DataService/"@ + "GetRowsFromTable"@ =~= "/cdata.DataService/GetRowsFromTable"@);
        },
        DataServiceMethod::GetRowFromPartialDatabase => {
            reveal_strlit("GetRowFromPartialDatabase");
            reveal_strlit("/cdata.DataService/GetRowFromPartialDatabase");
            assert("/cdata.DataService/"@ + "GetRowFromPartialDatabase"@ =~= "/cdata.DataService/GetRowFromPartialDatabase"@);
        },
        DataServiceMethod::SaveContract => {
            reveal_strlit("SaveContract");
            reveal_strlit("/cdata.DataService/SaveContract");
            assert("/cdata.DataService/"@ + "SaveContract"@ =~= "/cdata.DataService/SaveContract"@);
        },
        DataServiceMethod::AcceptContract => {
            reveal_strlit("AcceptContract");
            reveal_strlit("/cdata.DataService/AcceptContract");
            assert("/cdata.DataService/"@ + "AcceptContract"@ =~= "/cdata.DataService/AcceptContract"@);
        },
        DataServiceMethod::RemoveRowFromPartialDatabase => {
            reveal_strlit("RemoveRowFromPartialDatabase");
            reveal_strlit("/cdata.DataService/RemoveRowFromPartialDatabase");
            assert("/cdata.DataService/"@ + "RemoveRowFromPartialDatabase"@ =~= "/cdata.DataService/RemoveRowFromPartialDatabase"@);
        },
        DataServiceMethod::UpdateRowDataHashForHost => {
            reveal_strlit("UpdateRowDataHashForHost");
            reveal_strlit("/cdata.DataService/UpdateRowDataHashForHost");
            assert("/cdata.DataService/"@ + "UpdateRowDataHashForHost"@ =~= "/cdata.DataService/UpdateRowDataHashForHost"@);
        },
        DataServiceMethod::NotifyHostOfRemovedRow => {
            reveal_strlit("NotifyHostOfRemovedRow");
            reveal_strlit("/cdata.DataService/NotifyHostOfRemovedRow");
            assert("/cdata.DataService/"@ + "NotifyHostOfRemovedRow"@ =~= "/cdata.DataService/NotifyHostOfRemovedRow"@);
        },
    }
}

proof fn lemma_data_service_method_of_path_named(p: Seq<char>, m: DataServiceMethod)
    requires
        data_service_method_of_path(p) == Some(m),
    ensures
        p == data_service_method_path_of(m),
{
}

/// Each request path of the data service is served by the method that it names:
/// a path routes to the method `m` exactly when it is `/cdata.DataService/`
/// followed by the name of `m`.
pub proof fn law_data_service_path_names_its_method(m: DataServiceMethod, p: Seq<char>)
    ensures
        data_service_method_of_path(p) == Some(m) <==> p == "/cdata.DataService/"@ + data_service_method_name(m),
{
    lemma_data_service_method_name_path(m);
    law_data_service_method_paths_route_back(m);
    if data_service_method_of_path(p) == Some(m) {
        lemma_data_service_method_of_path_named(p, m);
    }
}

} // verus!
