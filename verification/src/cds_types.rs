//! The records of the CDS tables of rcd's own database, where a
//! participant keeps the contracts it holds and the hosts it knows.
use vstd::prelude::*;

use crate::rcd_enum::ContractStatus;

verus! {

/// A contract held from a host (CDS_CONTRACTS).
#[derive(Clone, Debug)]
pub struct CdsContracts {
    pub host_id: String,
    pub contract_id: String,
    pub contract_version_id: String,
    pub database_name: String,
    pub database_id: String,
    pub description: String,
    pub generated_date: String,
    pub contract_status: ContractStatus,
}

/// A table covered by a held contract (CDS_CONTRACTS_TABLES).
#[derive(Clone, Debug)]
pub struct CdsContractsTables {
    pub database_id: String,
    pub database_name: String,
    pub table_id: String,
    pub table_name: String,
    pub logical_storage_policy: u32,
}

/// A column of a table covered by a held contract
/// (CDS_CONTRACTS_TABLES_COLUMNS).
#[derive(Clone, Debug)]
pub struct CdsContractsTablesColumns {
    pub table_id: String,
    pub column_id: String,
    pub column_name: String,
    pub column_type: u32,
    pub column_length: u32,
    pub column_ordinal: u32,
    pub is_nullable: bool,
}

/// A column of a cooperative table.
#[derive(Clone, Debug)]
pub struct CdsCoop {
    pub table_id: String,
    pub column_id: String,
    pub column_name: String,
    pub column_type: u32,
    pub column_length: u32,
    pub column_ordinal: u32,
    pub is_nullable: bool,
}

/// A host known to this rcd instance (CDS_HOSTS).
#[derive(Clone, Debug)]
pub struct CdsHosts {
    pub host_id: String,
    pub host_name: String,
    pub token: Vec<u8>,
    pub ip4: String,
    pub ip6: String,
    pub port: u32,
    pub last_comm_utc: String,
}

} // verus!
