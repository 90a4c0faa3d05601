//! The enumerations of rcd and the integer codes under which they are
//! stored in the backing database and sent over the wire.
use vstd::prelude::*;

use crate::text::{contains, seq_contains};

verus! {

/// Determines how a host will respond to a participant's delete action.
/// Codes: 0 Unknown, 1 Ignore, 2 AutoDelete, 3 UpdateStatusOnly.
#[derive(Debug, PartialEq, Eq, Structural, Copy, Clone)]
pub enum RemoteDeleteBehavior {
    Unknown,
    Ignore,
    AutoDelete,
    UpdateStatusOnly,
}

impl RemoteDeleteBehavior {
    /// The stored code of the behavior.
    pub open spec fn code(self) -> int {
        match self {
            RemoteDeleteBehavior::Unknown => 0,
            RemoteDeleteBehavior::Ignore => 1,
            RemoteDeleteBehavior::AutoDelete => 2,
            RemoteDeleteBehavior::UpdateStatusOnly => 3,
        }
    }

    /// The behavior stored under `value`; the codes run from 0 to 3.
    pub fn from_i64(value: i64) -> (r: RemoteDeleteBehavior)
        requires
            0 <= value <= 3,
        ensures
            r.code() == value,
    {
        match value {
            0 => RemoteDeleteBehavior::Unknown,
            1 => RemoteDeleteBehavior::Ignore,
            2 => RemoteDeleteBehavior::AutoDelete,
            _ => RemoteDeleteBehavior::UpdateStatusOnly,
        }
    }

    /// The behavior stored under `value`; the codes run from 0 to 3.
    pub fn from_u32(value: u32) -> (r: RemoteDeleteBehavior)
        requires
            value <= 3,
        ensures
            r.code() == value,
    {
        match value {
            0 => RemoteDeleteBehavior::Unknown,
            1 => RemoteDeleteBehavior::Ignore,
            2 => RemoteDeleteBehavior::AutoDelete,
            _ => RemoteDeleteBehavior::UpdateStatusOnly,
        }
    }

    /// The code of `behavior`.
    pub fn to_u32(behavior: RemoteDeleteBehavior) -> (r: u32)
        ensures
            r == behavior.code(),
    {
        match behavior {
            RemoteDeleteBehavior::Unknown => 0,
            RemoteDeleteBehavior::Ignore => 1,
            RemoteDeleteBehavior::AutoDelete => 2,
            RemoteDeleteBehavior::UpdateStatusOnly => 3,
        }
    }
}

/// Determines where data in a table will be stored.
/// Codes: 0 NoPolicy (no policy set), 1 HostOnly, 2 ParticpantOwned, 3 Shared, 4 Mirror.
#[derive(Debug, PartialEq, Eq, Structural, Copy, Clone)]
pub enum LogicalStoragePolicy {
    NoPolicy,
    HostOnly,
    ParticpantOwned,
    Shared,
    Mirror,
}

impl LogicalStoragePolicy {
    /// The stored code of the policy.
    pub open spec fn code(self) -> int {
        match self {
            LogicalStoragePolicy::NoPolicy => 0,
            LogicalStoragePolicy::HostOnly => 1,
            LogicalStoragePolicy::ParticpantOwned => 2,
            LogicalStoragePolicy::Shared => 3,
            LogicalStoragePolicy::Mirror => 4,
        }
    }

    /// Whether data under the policy is kept, in some form, at participants.
    pub open spec fn is_cooperative(self) -> bool {
        self == LogicalStoragePolicy::Mirror || self == LogicalStoragePolicy::ParticpantOwned
            || self == LogicalStoragePolicy::Shared
    }

    /// The policy stored under `value`; the codes run from 0 to 4.
    pub fn from_i64(value: i64) -> (r: LogicalStoragePolicy)
        requires
            0 <= value <= 4,
        ensures
            r.code() == value,
    {
        match value {
            0 => LogicalStoragePolicy::NoPolicy,
            1 => LogicalStoragePolicy::HostOnly,
            2 => LogicalStoragePolicy::ParticpantOwned,
            3 => LogicalStoragePolicy::Shared,
            _ => LogicalStoragePolicy::Mirror,
        }
    }

    /// The policy stored under `value`; the codes run from 0 to 4.
    pub fn from_u32(value: u32) -> (r: LogicalStoragePolicy)
        requires
            value <= 4,
        ensures
            r.code() == value,
    {
        match value {
            0 => LogicalStoragePolicy::NoPolicy,
            1 => LogicalStoragePolicy::HostOnly,
            2 => LogicalStoragePolicy::ParticpantOwned,
            3 => LogicalStoragePolicy::Shared,
            _ => LogicalStoragePolicy::Mirror,
        }
    }

    /// The code of `policy`.
    pub fn to_u32(policy: LogicalStoragePolicy) -> (r: u32)
        ensures
            r == policy.code(),
    {
        match policy {
            LogicalStoragePolicy::NoPolicy => 0,
            LogicalStoragePolicy::HostOnly => 1,
            LogicalStoragePolicy::ParticpantOwned => 2,
            LogicalStoragePolicy::Shared => 3,
            LogicalStoragePolicy::Mirror => 4,
        }
    }

    /// Whether data under `policy` is kept at participants (Mirror,
    /// ParticpantOwned or Shared).
    pub fn is_cooperative_policy(policy: LogicalStoragePolicy) -> (r: bool)
        ensures
            r == policy.is_cooperative(),
    {
        match policy {
            LogicalStoragePolicy::Mirror => true,
            LogicalStoragePolicy::ParticpantOwned => true,
            LogicalStoragePolicy::Shared => true,
            _ => false,
        }
    }
}

/// The status of a contract between a host and a participant.
/// Codes: 0 Unknown, 1 NotSent, 2 Pending, 3 Accepted, 4 Rejected.
#[derive(Debug, PartialEq, Eq, Structural, Copy, Clone)]
pub enum ContractStatus {
    Unknown,
    NotSent,
    Pending,
    Accepted,
    Rejected,
}

impl ContractStatus {
    /// The stored code of the status.
    pub open spec fn code(self) -> int {
        match self {
            ContractStatus::Unknown => 0,
            ContractStatus::NotSent => 1,
            ContractStatus::Pending => 2,
            ContractStatus::Accepted => 3,
            ContractStatus::Rejected => 4,
        }
    }

    /// The status stored under `value`; the codes run from 0 to 4.
    pub fn from_i64(value: i64) -> (r: ContractStatus)
        requires
            0 <= value <= 4,
        ensures
            r.code() == value,
    {
        match value {
            0 => ContractStatus::Unknown,
            1 => ContractStatus::NotSent,
            2 => ContractStatus::Pending,
            3 => ContractStatus::Accepted,
            _ => ContractStatus::Rejected,
        }
    }

    /// The status stored under `value`; the codes run from 0 to 4.
    pub fn from_u32(value: u32) -> (r: ContractStatus)
        requires
            value <= 4,
        ensures
            r.code() == value,
    {
        match value {
            0 => ContractStatus::Unknown,
            1 => ContractStatus::NotSent,
            2 => ContractStatus::Pending,
            3 => ContractStatus::Accepted,
            _ => ContractStatus::Rejected,
        }
    }

    /// The code of `status`.
    pub fn to_u32(status: ContractStatus) -> (r: u32)
        ensures
            r == status.code(),
    {
        match status {
            ContractStatus::Unknown => 0,
            ContractStatus::NotSent => 1,
            ContractStatus::Pending => 2,
            ContractStatus::Accepted => 3,
            ContractStatus::Rejected => 4,
        }
    }
}

/// The data type of a column.
/// Codes: 0 Unknown, 1 Int, 2 Bit, 3 Char, 4 DateTime, 5 Decimal, 6 Varchar,
/// 7 Binary, 8 Varbinary, 9 Text.
#[derive(Debug, PartialEq, Eq, Structural, Copy, Clone)]
pub enum ColumnType {
    Unknown,
    Int,
    Bit,
    Char,
    DateTime,
    Decimal,
    Varchar,
    Binary,
    Varbinary,
    Text,
}

/// The lower-case form of a text, as `str::to_lowercase` computes it
/// (Unicode's Lowercase mapping).
pub uninterp spec fn spec_lowercase(s: Seq<char>) -> Seq<char>;

/// Calls `str::to_lowercase`. Claimed: the result is the lower-case form
/// `spec_lowercase` of the argument; no more is said of that mapping.
#[verifier::external_body]
fn lowercase(s: &str) -> (r: String)
    ensures
        r@ == spec_lowercase(s@),
{
    s.to_lowercase()
}

/// The column type that a lower-case type declaration names: the empty
/// declaration is Unknown; otherwise the first of "int", "bit", "varchar",
/// "char", "datetime", "decimal", "varbinary", "binary", "text" that the
/// declaration contains decides, in that order; a declaration with none of
/// them names no type.
pub open spec fn column_type_of(s: Seq<char>) -> Option<ColumnType> {
    if s.len() == 0 {
        Some(ColumnType::Unknown)
    } else if seq_contains(s, "int"@) {
        Some(ColumnType::Int)
    } else if seq_contains(s, "bit"@) {
        Some(ColumnType::Bit)
    } else if seq_contains(s, "varchar"@) {
        Some(ColumnType::Varchar)
    } else if seq_contains(s, "char"@) {
        Some(ColumnType::Char)
    } else if seq_contains(s, "datetime"@) {
        Some(ColumnType::DateTime)
    } else if seq_contains(s, "decimal"@) {
        Some(ColumnType::Decimal)
    } else if seq_contains(s, "varbinary"@) {
        Some(ColumnType::Varbinary)
    } else if seq_contains(s, "binary"@) {
        Some(ColumnType::Binary)
    } else if seq_contains(s, "text"@) {
        Some(ColumnType::Text)
    } else {
        None
    }
}

impl ColumnType {
    /// The stored code of the column type.
    pub open spec fn code(self) -> int {
        match self {
            ColumnType::Unknown => 0,
            ColumnType::Int => 1,
            ColumnType::Bit => 2,
            ColumnType::Char => 3,
            ColumnType::DateTime => 4,
            ColumnType::Decimal => 5,
            ColumnType::Varchar => 6,
            ColumnType::Binary => 7,
            ColumnType::Varbinary => 8,
            ColumnType::Text => 9,
        }
    }

    /// The column type that a type declaration names, read without regard
    /// to case (see `column_type_of`).
    pub fn try_parse(desc: &str) -> (r: Option<ColumnType>)
        ensures
            r == column_type_of(spec_lowercase(desc@)),
    {
        let lowered = lowercase(desc);
        ColumnType::try_parse_lowercase(lowered.as_str())
    }

    /// The column type that an already lower-case type declaration names.
    pub fn try_parse_lowercase(s: &str) -> (r: Option<ColumnType>)
        ensures
            r == column_type_of(s@),
    {
        if s.unicode_len() == 0 {
            return Some(ColumnType::Unknown);
        }
        if contains(s, "int") {
            return Some(ColumnType::Int);
        }
        if contains(s, "bit") {
            return Some(ColumnType::Bit);
        }
        if contains(s, "varchar") {
            return Some(ColumnType::Varchar);
        }
        if contains(s, "char") {
            return Some(ColumnType::Char);
        }
        if contains(s, "datetime") {
            return Some(ColumnType::DateTime);
        }
        if contains(s, "decimal") {
            return Some(ColumnType::Decimal);
        }
        if contains(s, "varbinary") {
            return Some(ColumnType::Varbinary);
        }
        if contains(s, "binary") {
            return Some(ColumnType::Binary);
        }
        if contains(s, "text") {
            return Some(ColumnType::Text);
        }
        None
    }

    /// The column type stored under `value`; the codes run from 0 to 9.
    pub fn from_u32(value: u32) -> (r: ColumnType)
        requires
            value <= 9,
        ensures
            r.code() == value,
    {
        match value {
            0 => ColumnType::Unknown,
            1 => ColumnType::Int,
            2 => ColumnType::Bit,
            3 => ColumnType::Char,
            4 => ColumnType::DateTime,
            5 => ColumnType::Decimal,
            6 => ColumnType::Varchar,
            7 => ColumnType::Binary,
            8 => ColumnType::Varbinary,
            _ => ColumnType::Text,
        }
    }

    /// The code of `col_type`.
    pub fn to_u32(col_type: ColumnType) -> (r: u32)
        ensures
            r == col_type.code(),
    {
        match col_type {
            ColumnType::Unknown => 0,
            ColumnType::Int => 1,
            ColumnType::Bit => 2,
            ColumnType::Char => 3,
            ColumnType::DateTime => 4,
            ColumnType::Decimal => 5,
            ColumnType::Varchar => 6,
            ColumnType::Binary => 7,
            ColumnType::Varbinary => 8,
            ColumnType::Text => 9,
        }
    }
}

/// The kinds of data manipulation statement that rcd tells apart.
#[derive(Debug, PartialEq, Eq, Structural, Copy, Clone)]
pub enum DmlType {
    Unknown,
    Insert,
    Update,
    Delete,
    Select,
}

/// Errors of operations on a user database.
#[derive(Debug)]
pub enum RcdDbError {
    General(String),
    DbNotFound(String),
    TableNotFound(String),
    LogicalStoragePolicyNotSet(String),
}

impl RcdDbError {
    /// The text that the error displays.
    pub fn to_display_text(&self) -> (r: String)
        ensures
            r@ == "RcdDbError"@,
    {
        String::from_str("RcdDbError")
    }
}

/// Errors of contract generation.
#[derive(Debug)]
pub enum RcdGenerateContractError {
    General(String),
    NotAllTablesSet(String),
}

impl RcdGenerateContractError {
    /// The text that the error displays.
    pub fn to_display_text(&self) -> (r: String)
        ensures
            r@ == "RcdGenerateContractError"@,
    {
        String::from_str("RcdGenerateContractError")
    }
}

/// The type of backing database rcd is hosting.
/// Codes: 0 Unknown, 1 Sqlite, 2 Mysql, 3 Postgres, 4 Sqlserver.
#[derive(Debug, PartialEq, Eq, Structural, Copy, Clone)]
pub enum DatabaseType {
    Unknown,
    Sqlite,
    Mysql,
    Postgres,
    Sqlserver,
}

impl DatabaseType {
    /// The stored code of the database type.
    pub open spec fn code(self) -> int {
        match self {
            DatabaseType::Unknown => 0,
            DatabaseType::Sqlite => 1,
            DatabaseType::Mysql => 2,
            DatabaseType::Postgres => 3,
            DatabaseType::Sqlserver => 4,
        }
    }

    /// The database type stored under `value`; the codes run from 0 to 4.
    pub fn from_i64(value: i64) -> (r: DatabaseType)
        requires
            0 <= value <= 4,
        ensures
            r.code() == value,
    {
        match value {
            0 => DatabaseType::Unknown,
            1 => DatabaseType::Sqlite,
            2 => DatabaseType::Mysql,
            3 => DatabaseType::Postgres,
            _ => DatabaseType::Sqlserver,
        }
    }

    /// The database type stored under `value`; the codes run from 0 to 4.
    pub fn from_u32(value: u32) -> (r: DatabaseType)
        requires
            value <= 4,
        ensures
            r.code() == value,
    {
        match value {
            0 => DatabaseType::Unknown,
            1 => DatabaseType::Sqlite,
            2 => DatabaseType::Mysql,
            3 => DatabaseType::Postgres,
            _ => DatabaseType::Sqlserver,
        }
    }

    /// The code of `db_type`.
    pub fn to_u32(db_type: DatabaseType) -> (r: u32)
        ensures
            r == db_type.code(),
    {
        match db_type {
            DatabaseType::Unknown => 0,
            DatabaseType::Sqlite => 1,
            DatabaseType::Mysql => 2,
            DatabaseType::Postgres => 3,
            DatabaseType::Sqlserver => 4,
        }
    }
}

/// Each remote delete behavior has its own code, between 0 and 3, so that
/// reading back the code that `to_u32` wrote gives the same behavior.
pub proof fn law_remote_delete_behavior_codes(a: RemoteDeleteBehavior, b: RemoteDeleteBehavior)
    ensures
        0 <= a.code() <= 3,
        a.code() == b.code() ==> a == b,
{
}

/// Each logical storage policy has its own code, between 0 and 4.
pub proof fn law_logical_storage_policy_codes(a: LogicalStoragePolicy, b: LogicalStoragePolicy)
    ensures
        0 <= a.code() <= 4,
        a.code() == b.code() ==> a == b,
{
}

/// Each contract status has its own code, between 0 and 4.
pub proof fn law_contract_status_codes(a: ContractStatus, b: ContractStatus)
    ensures
        0 <= a.code() <= 4,
        a.code() == b.code() ==> a == b,
{
}

/// Each column type has its own code, between 0 and 9.
pub proof fn law_column_type_codes(a: ColumnType, b: ColumnType)
    ensures
        0 <= a.code() <= 9,
        a.code() == b.code() ==> a == b,
{
}

/// Each database type has its own code, between 0 and 4.
pub proof fn law_database_type_codes(a: DatabaseType, b: DatabaseType)
    ensures
        0 <= a.code() <= 4,
        a.code() == b.code() ==> a == b,
{
}

} // verus!
