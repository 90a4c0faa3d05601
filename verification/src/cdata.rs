//! The messages that rcd exchanges with its clients and with other rcd
//! instances: schemas, rows, hosts, participants and contracts.
use vstd::prelude::*;

verus! {

/// A message for basic online testing: who asks, and the message to echo.
#[derive(Clone, Debug)]
pub struct TestRequest {
    pub request_time_utc: String,
    pub request_origin_url: String,
    pub request_origin_ip4: String,
    pub request_origin_ip6: String,
    pub request_port_number: u32,
    pub request_echo_message: String,
}

/// The answer to an online test: the time of the answer and the echoed
/// message.
#[derive(Clone, Debug)]
pub struct TestReply {
    pub reply_time_utc: String,
    pub reply_echo_message: String,
}

/// The schema of a column of a table.
#[derive(Clone, Debug)]
pub struct ColumnSchema {
    pub column_name: String,
    pub column_type: u32,
    pub column_length: u32,
    pub is_nullable: bool,
    pub ordinal: u32,
    pub table_id: String,
    pub column_id: String,
    pub is_primary_key: bool,
}

impl ColumnSchema {
    /// A column schema with the same fields.
    pub fn copy(&self) -> (r: ColumnSchema)
        ensures
            r == *self,
    {
        ColumnSchema {
            column_name: self.column_name.clone(),
            column_type: self.column_type,
            column_length: self.column_length,
            is_nullable: self.is_nullable,
            ordinal: self.ordinal,
            table_id: self.table_id.clone(),
            column_id: self.column_id.clone(),
            is_primary_key: self.is_primary_key,
        }
    }
}

/// A value of a row: its column, whether it is null, its bytes and its
/// text.
#[derive(Clone, Debug)]
pub struct RowValue {
    pub column: Option<ColumnSchema>,
    pub is_null_value: bool,
    pub value: Vec<u8>,
    pub string_value: String,
}

/// How a row held remotely stands against its host.
#[derive(Clone, Debug)]
pub struct RowRemoteMetadata {
    pub is_remote_out_of_sync_with_host: bool,
    pub is_hash_out_of_sync_with_host: bool,
    pub is_remote_deleted: bool,
    pub is_local_deleted: bool,
}

/// A row of a table, with the hash recorded for it.
#[derive(Clone, Debug)]
pub struct Row {
    pub database_name: String,
    pub table_name: String,
    pub row_id: u32,
    pub values: Vec<RowValue>,
    pub is_remoteable: bool,
    pub remote_metadata: Option<RowRemoteMetadata>,
    pub hash: Vec<u8>,
}

/// The schema of a table of a database.
#[derive(Clone, Debug)]
pub struct TableSchema {
    pub table_name: String,
    pub table_id: String,
    pub database_name: String,
    pub database_id: String,
    pub columns: Vec<ColumnSchema>,
    pub logical_storage_policy: u32,
}

/// The schema of a database.
#[derive(Clone, Debug)]
pub struct DatabaseSchema {
    pub database_name: String,
    pub database_id: String,
    pub tables: Vec<TableSchema>,
}

/// A host, as a participant knows it.
#[derive(Clone, Debug)]
pub struct Host {
    pub host_guid: String,
    pub host_name: String,
    pub ip4_address: String,
    pub ip6_address: String,
    pub database_port_number: u32,
    pub token: Vec<u8>,
}

/// A participant, as a host knows it.
#[derive(Clone, Debug)]
pub struct Participant {
    pub participant_guid: String,
    pub alias: String,
    pub ip4_address: String,
    pub ip6_address: String,
    pub database_port_number: u32,
    pub token: Vec<u8>,
}

/// A contract: its id, description, the schema it covers, its version, its
/// host and its status.
#[derive(Clone, Debug)]
pub struct Contract {
    pub contract_guid: String,
    pub description: String,
    pub schema: Option<DatabaseSchema>,
    pub contract_version: String,
    pub host_info: Option<Host>,
    pub status: u32,
}

} // verus!
