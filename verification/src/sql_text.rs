//! The SQL text of rcd's backing store: the tables of the cooperative data
//! store (CDS) in rcd's own database, and the COOP tables that cooperative
//! features add to a user database.
use vstd::prelude::*;

use crate::text::{replace, spec_replace};

verus! {

/// The statement that `text_create_user_table` returns.
pub const CREATE_USER_TABLE: &'static str = "CREATE TABLE IF NOT EXISTS CDS_USER
        (
            USERNAME VARCHAR(25) UNIQUE,
            HASH BLOB NOT NULL
        );";

/// The statement that `text_add_user` returns.
pub const ADD_USER: &'static str = "INSERT INTO CDS_USER (USERNAME, HASH) VALUES (:username, :hash);";

/// The statement that `text_get_user` returns.
pub const GET_USER: &'static str = "SELECT USERNAME, HASH FROM CDS_USER WHERE USERNAME = :un";

/// The statement that `text_get_user_role` returns.
pub const GET_USER_ROLE: &'static str = "SELECT count(*) AS TOTALCOUNT FROM CDS_USER_ROLE WHERE USERNAME = :username AND ROLENAME = :rolename;";

/// The statement that `text_add_user_role` returns.
pub const ADD_USER_ROLE: &'static str = "INSERT INTO CDS_USER_ROLE (USERNAME, ROLENAME) VALUES (:username, :rolename);";

/// The statement that `text_get_role` returns.
pub const GET_ROLE: &'static str = "SELECT count(*) AS ROLECOUNT FROM CDS_ROLE WHERE ROLENAME = :rolename";

/// The statement that `text_create_role_table` returns.
pub const CREATE_ROLE_TABLE: &'static str = "CREATE TABLE IF NOT EXISTS CDS_ROLE
                (
                    ROLENAME VARCHAR(25) UNIQUE
                );";

/// The statement that `text_create_user_role_table` returns.
pub const CREATE_USER_ROLE_TABLE: &'static str = "CREATE TABLE IF NOT EXISTS CDS_USER_ROLE
            (
                USERNAME VARCHAR(25) NOT NULL,
                ROLENAME VARCHAR(25) NOT NULL   
            );";

/// The statement that `text_create_host_info_table` returns.
pub const CREATE_HOST_INFO_TABLE: &'static str = "CREATE TABLE IF NOT EXISTS CDS_HOST_INFO
         (
             HOST_ID CHAR(36) NOT NULL,
             HOST_NAME VARCHAR(50) NOT NULL,
             TOKEN BLOB NOT NULL
         );";

/// The statement that `text_create_cds_hosts_table` returns.
pub const CREATE_CDS_HOSTS_TABLE: &'static str = "CREATE TABLE IF NOT EXISTS CDS_HOSTS
        (
            HOST_ID CHAR(36) NOT NULL,
            HOST_NAME VARCHAR(50),
            TOKEN BLOB,
            IP4ADDRESS VARCHAR(25),
            IP6ADDRESS VARCHAR(25),
            PORT INT,
            LAST_COMMUNICATION_UTC DATETIME
        );";

/// The statement that `text_create_cds_contracts_table` returns.
pub const CREATE_CDS_CONTRACTS_TABLE: &'static str = "CREATE TABLE IF NOT EXISTS CDS_CONTRACTS
        (
            HOST_ID CHAR(36) NOT NULL,
            CONTRACT_ID CHAR(36) NOT NULL,
            CONTRACT_VERSION_ID CHAR(36) NOT NULL,
            DATABASE_NAME VARCHAR(50) NOT NULL,
            DATABASE_ID CHAR(36) NOT NULL,
            DESCRIPTION VARCHAR(255),
            GENERATED_DATE_UTC DATETIME,
            CONTRACT_STATUS INT
        );";

/// The statement that `text_create_cds_contracts_tables_table` returns.
pub const CREATE_CDS_CONTRACTS_TABLES_TABLE: &'static str = "CREATE TABLE IF NOT EXISTS CDS_CONTRACTS_TABLES
        (
            DATABASE_ID CHAR(36) NOT NULL,
            DATABASE_NAME VARCHAR(50) NOT NULL,
            TABLE_ID CHAR(36) NOT NULL,
            TABLE_NAME VARCHAR(50) NOT NULL
        );";

/// The statement that `text_create_cds_contracts_tables_schemas_table` returns.
pub const CREATE_CDS_CONTRACTS_TABLES_SCHEMAS_TABLE: &'static str = "CREATE TABLE IF NOT EXISTS CDS_CONTRACTS_TABLE_SCHEMAS
        (
            TABLE_ID CHAR(36) NOT NULL,
            COLUMN_ID CHAR(36) NOT NULL,
            COLUMN_NAME VARCHAR(50) NOT NULL,
            COLUMN_TYPE INT NOT NULL,
            COLUMN_LENGTH INT NOT NULL,
            COLUMN_ORDINAL INT NOT NULL,
            IS_NULLABLE INT
        );";

/// The statement that `text_create_data_host_table` returns.
pub const CREATE_DATA_HOST_TABLE: &'static str = "CREATE TABLE IF NOT EXISTS COOP_DATA_HOST
        (
           DATABASE_ID CHAR(36) NOT NULL,
           DATABASE_NAME VARCHAR(500) NOT NULL
        );
        ";

/// The statement that `text_create_data_host_tables_table` returns.
pub const CREATE_DATA_HOST_TABLES_TABLE: &'static str = "CREATE TABLE IF NOT EXISTS COOP_DATA_TABLES
            (
                TABLE_ID CHAR(36) NOT NULL,
                TABLE_NAME VARCHAR(500) NOT NULL
            );
            ";

/// The statement that `text_create_data_host_tables_columns_table` returns.
pub const CREATE_DATA_HOST_TABLES_COLUMNS_TABLE: &'static str = "CREATE TABLE IF NOT EXISTS COOP_DATA_HOST_TABLE_COLUMNS
            (
                TABLE_ID CHAR(36) NOT NULL,
                COLUMN_ID CHAR(36) NOT NULL,
                COLUMN_NAME VARCHAR(500) NOT NULL
            )
            ";

/// The statement that `text_get_count_from_data_host_tables_for_table` returns.
pub const GET_COUNT_FROM_DATA_HOST_TABLES_FOR_TABLE: &'static str = "SELECT count(*) tablecount FROM COOP_DATA_TABLES WHERE TABLE_NAME = ':table_name'";

/// The statement that `text_get_count_from_data_host` returns.
pub const GET_COUNT_FROM_DATA_HOST: &'static str = "SELECT COUNT(*) COUNT FROM COOP_DATA_HOST";

/// The statement that `text_add_database_id_to_host` returns.
pub const ADD_DATABASE_ID_TO_HOST: &'static str = "INSERT INTO COOP_DATA_HOST
        (DATABASE_ID, DATABASE_NAME) VALUES (:database_id, :database_name);";

/// The statement that `text_create_data_remotes_table` returns.
pub const CREATE_DATA_REMOTES_TABLE: &'static str = "CREATE TABLE IF NOT EXISTS COOP_REMOTES
        (
            TABLENAME VARCHAR(255) NOT NULL,
            LOGICAL_STORAGE_POLICY INT NOT NULL
        );
        ;";

/// The statement that `text_get_logical_storage_policy_tables` returns.
pub const GET_LOGICAL_STORAGE_POLICY_TABLES: &'static str = "
        SELECT
            TABLENAME,
            LOGICAL_STORAGE_POLICY  
        FROM
            COOP_REMOTES
            ;
        ";

// Statements that the database interface runs.

/// Counts the logins named `:username`.
pub const HAS_LOGIN: &'static str = "SELECT count(*) AS USERCOUNT FROM CDS_USER WHERE USERNAME = :username";

/// Counts the rows of the host information.
pub const HOST_INFO_COUNT: &'static str = "SELECT COUNT(*) TOTALCOUNT FROM CDS_HOST_INFO";

/// Reads the host information: id, name and token.
pub const GET_HOST_INFO: &'static str = "
    SELECT 
        HOST_ID, 
        HOST_NAME, 
        TOKEN 
    FROM 
        CDS_HOST_INFO;";

/// Saves the host information `:id`, `:name`, `:token`.
pub const ADD_HOST_INFO: &'static str = "
            INSERT INTO CDS_HOST_INFO
            (
                HOST_ID,
                HOST_NAME,
                TOKEN
            )
            VALUES
            (
                :id,
                :name,
                :token
            );";

/// Adds the SysAdmin role.
pub const ADD_SYSADMIN_ROLE: &'static str = "INSERT INTO CDS_ROLE (ROLENAME) VALUES ('SysAdmin');";

/// Counts the tables named `:table_name` (placeholder).
pub const HAS_TABLE: &'static str = "SELECT count(*) AS TABLECOUNT FROM sqlite_master WHERE type='table' AND name=':table_name'";

/// Counts the policy records of table `:table_name` (placeholder).
pub const REMOTES_COUNT_FOR_TABLE: &'static str = "SELECT COUNT(*) TOTALCOUNT FROM COOP_REMOTES WHERE TABLENAME = ':table_name';";

/// Reads the policy code of table `:table_name` (placeholder).
pub const REMOTES_POLICY_FOR_TABLE: &'static str = "SELECT LOGICAL_STORAGE_POLICY FROM COOP_REMOTES WHERE TABLENAME = ':table_name';";

/// Changes the policy of table `:table_name` to `:policy` (placeholders).
pub const REMOTES_UPDATE_POLICY: &'static str = "UPDATE COOP_REMOTES
            SET LOGICAL_STORAGE_POLICY = :policy
            WHERE TABLENAME = ':table_name';
            ";

/// Records the policy `:policy` of table `:table_name` (placeholders).
pub const REMOTES_INSERT_POLICY: &'static str = "INSERT INTO COOP_REMOTES
            (
                TABLENAME,
                LOGICAL_STORAGE_POLICY  
            )
            VALUES
            (
                ':table_name',
                :policy
            );";

/// Creates the COOP_PARTICIPANT table.
pub const CREATE_PARTICIPANT_TABLE: &'static str = "CREATE TABLE IF NOT EXISTS COOP_PARTICIPANT
    (
        INTERNAL_PARTICIPANT_ID CHAR(36) NOT NULL,
        ALIAS VARCHAR(50) NOT NULL,
        IP4ADDRESS VARCHAR(25),
        IP6ADDRESS VARCHAR(25),
        PORT INT,
        CONTRACT_STATUS INT,
        ACCEPTED_CONTRACT_VERSION_ID CHAR(36),
        TOKEN BLOB NOT NULL,
        PARTICIPANT_ID CHAR(36)
    );";

/// Creates the COOP_REMOTES table.
pub const CREATE_REMOTES_TABLE: &'static str = "CREATE TABLE IF NOT EXISTS COOP_REMOTES
    (
        TABLENAME VARCHAR(255) NOT NULL,
        LOGICAL_STORAGE_POLICY INT NOT NULL
    );";

/// Creates the COOP_DATABASE_CONTRACT table.
pub const CREATE_COOP_CONTRACTS_TABLE: &'static str = "CREATE TABLE IF NOT EXISTS COOP_DATABASE_CONTRACT
    (
        CONTRACT_ID CHAR(36) NOT NULL,
        GENERATED_DATE_UTC DATETIME NOT NULL,
        DESCRIPTION VARCHAR(255),
        RETIRED_DATE_UTC DATETIME,
        VERSION_ID CHAR(36) NOT NULL,
        REMOTE_DELETE_BEHAVIOR INT
    );";

/// Counts the participants with alias `:alias` (placeholder).
pub const PARTICIPANT_COUNT: &'static str = "SELECT COUNT(*) TOTALCOUNT FROM COOP_PARTICIPANT WHERE ALIAS = ':alias'";

/// Saves a participant (named parameters).
pub const ADD_PARTICIPANT: &'static str = "
        INSERT INTO COOP_PARTICIPANT
        (
            INTERNAL_PARTICIPANT_ID,
            ALIAS,
            IP4ADDRESS,
            IP6ADDRESS,
            PORT,
            CONTRACT_STATUS,
            ACCEPTED_CONTRACT_VERSION_ID,
            TOKEN,
            PARTICIPANT_ID
        )
        VALUES
        (
            :internal_id,
            :alias,
            :ip4addr,
            :ip6addr,
            :db_port,
            :contract_status,
            :accepted_contract_version,
            :token,
            :id
        );
        ";

/// Counts the contracts of a database.
pub const CONTRACT_COUNT: &'static str = "SELECT COUNT(*) TOTALCONTRACTS FROM COOP_DATABASE_CONTRACT";

/// Lists the user tables of a database.
pub const USER_TABLE_NAMES: &'static str = "SELECT name FROM sqlite_schema WHERE type ='table' AND name NOT LIKE 'sqlite_%' AND name NOT LIKE 'COOP_%'";

/// Reads the schema of table `:table_name` (placeholder).
pub const SCHEMA_OF_TABLE: &'static str = "PRAGMA table_info(\":table_name\")";

/// Reads the row ids of `:table_name` that meet `:where_clause` (placeholders).
pub const READ_ROW_ID: &'static str = "SELECT ROWID FROM :table_name WHERE :where_clause";

/// Reads row `:rid` of `:table_name` (placeholders).
pub const GET_ROW: &'static str = "SELECT * from :table_name WHERE ROWID = :rid";

/// Reads the hash of row `:row_id` from metadata table `:metadata` (placeholders).
pub const DATA_HASH: &'static str = "SELECT HASH FROM :metadata WHERE ROW_ID = :row_id";

/// Reads the participant with alias `:alias` (named parameter).
pub const GET_PARTICIPANT_BY_ALIAS: &'static str = "
        SELECT 
            INTERNAL_PARTICIPANT_ID,
            ALIAS,
            IP4ADDRESS,
            IP6ADDRESS,
            PORT,
            CONTRACT_STATUS,
            ACCEPTED_CONTRACT_VERSION_ID,
            TOKEN,
            PARTICIPANT_ID
        FROM
            COOP_PARTICIPANT
        WHERE
            ALIAS = :alias
        ;
        ";

/// Reads the tokens of the host with id `:hid` (placeholder).
pub const HOST_TOKEN_BY_ID: &'static str = "
    SELECT TOKEN FROM CDS_HOSTS WHERE HOST_ID = ':hid'";

/// Reads the tokens of the host named `:name` (placeholder).
pub const HOST_TOKEN_BY_NAME: &'static str = "
    SELECT TOKEN FROM CDS_HOSTS WHERE HOST_NAME = ':name'";

/// Anything in CDS is in the Cooperative Data Store.
pub struct CDS {}

/// Anything in COOP are tables stored in the user database and are used
/// to enable cooperative functions with participants.
pub struct COOP {}

impl CDS {
    /// Returns create table statement for storing users of the CDS.
    pub fn text_create_user_table() -> (r: String)
        ensures
            r@ == CREATE_USER_TABLE@,
    {
        String::from_str(CREATE_USER_TABLE)
    }

    /// Returns the `ADD_USER` statement.
    pub fn text_add_user() -> (r: String)
        ensures
            r@ == ADD_USER@,
    {
        String::from_str(ADD_USER)
    }

    /// Returns the `GET_USER` statement.
    pub fn text_get_user() -> (r: String)
        ensures
            r@ == GET_USER@,
    {
        String::from_str(GET_USER)
    }

    /// Returns the `GET_USER_ROLE` statement.
    pub fn text_get_user_role() -> (r: String)
        ensures
            r@ == GET_USER_ROLE@,
    {
        String::from_str(GET_USER_ROLE)
    }

    /// Returns the `ADD_USER_ROLE` statement.
    pub fn text_add_user_role() -> (r: String)
        ensures
            r@ == ADD_USER_ROLE@,
    {
        String::from_str(ADD_USER_ROLE)
    }

    /// Returns the `GET_ROLE` statement.
    pub fn text_get_role() -> (r: String)
        ensures
            r@ == GET_ROLE@,
    {
        String::from_str(GET_ROLE)
    }

    /// Returns create table statement for storing roles of the CDS.
    pub fn text_create_role_table() -> (r: String)
        ensures
            r@ == CREATE_ROLE_TABLE@,
    {
        String::from_str(CREATE_ROLE_TABLE)
    }

    /// Returns create table statement for xref users to roles.
    pub fn text_create_user_role_table() -> (r: String)
        ensures
            r@ == CREATE_USER_ROLE_TABLE@,
    {
        String::from_str(CREATE_USER_ROLE_TABLE)
    }

    /// Returns create table statement for storing unique identifier to participants.
    pub fn text_create_host_info_table() -> (r: String)
        ensures
            r@ == CREATE_HOST_INFO_TABLE@,
    {
        String::from_str(CREATE_HOST_INFO_TABLE)
    }

    /// Returns create table statement for hosts that this CDS is cooperating with.
    /// This is used for partial databases and their contracts.
    pub fn text_create_cds_hosts_table() -> (r: String)
        ensures
            r@ == CREATE_CDS_HOSTS_TABLE@,
    {
        String::from_str(CREATE_CDS_HOSTS_TABLE)
    }

    /// Returns create table statement for holding schema information for partial databases participating with a remote host.
    /// This is used for partial databases and their contracts.
    pub fn text_create_cds_contracts_table() -> (r: String)
        ensures
            r@ == CREATE_CDS_CONTRACTS_TABLE@,
    {
        String::from_str(CREATE_CDS_CONTRACTS_TABLE)
    }

    /// Returns create table statement for holding the tables in the partial database.
    /// This is used for partial databases and their contracts.
    pub fn text_create_cds_contracts_tables_table() -> (r: String)
        ensures
            r@ == CREATE_CDS_CONTRACTS_TABLES_TABLE@,
    {
        String::from_str(CREATE_CDS_CONTRACTS_TABLES_TABLE)
    }

    /// Returns create table statement for holding the schema for the tables in the partial database.
    /// This is used for partial databases and their contracts.
    pub fn text_create_cds_contracts_tables_schemas_table() -> (r: String)
        ensures
            r@ == CREATE_CDS_CONTRACTS_TABLES_SCHEMAS_TABLE@,
    {
        String::from_str(CREATE_CDS_CONTRACTS_TABLES_SCHEMAS_TABLE)
    }

}

impl COOP {
    /// Returns create table statement for storing the database id when we 1st enable cooperative features
    pub fn text_create_data_host_table() -> (r: String)
        ensures
            r@ == CREATE_DATA_HOST_TABLE@,
    {
        String::from_str(CREATE_DATA_HOST_TABLE)
    }

    /// Returns create table statement for storing the table ids generated when we start setting logical
    /// storage policies on tables. This should align with COOP_REMOTES.
    pub fn text_create_data_host_tables_table() -> (r: String)
        ensures
            r@ == CREATE_DATA_HOST_TABLES_TABLE@,
    {
        String::from_str(CREATE_DATA_HOST_TABLES_TABLE)
    }

    /// Returns create table statement for storing the column ids generated when we start setting logical
    /// storage policies on tables. This should align with the actual schema of the table in the datbase.
    pub fn text_create_data_host_tables_columns_table() -> (r: String)
        ensures
            r@ == CREATE_DATA_HOST_TABLES_COLUMNS_TABLE@,
    {
        String::from_str(CREATE_DATA_HOST_TABLES_COLUMNS_TABLE)
    }

    /// Returns SQL statement for getting the count of tables in the cooperative data table tables (this is for contracts)
    /// for the specified table name
    /// # Params:
    /// - ":table_name"
    pub fn text_get_count_from_data_host_tables_for_table(table_name: &str) -> (r: String)
        ensures
            r@ == spec_replace(GET_COUNT_FROM_DATA_HOST_TABLES_FOR_TABLE@, ":table_name"@, table_name@),
    {
        proof {
            reveal_strlit(":table_name");
        }
        replace(GET_COUNT_FROM_DATA_HOST_TABLES_FOR_TABLE, ":table_name", table_name)
    }

    /// Returns the `GET_COUNT_FROM_DATA_HOST` statement.
    pub fn text_get_count_from_data_host() -> (r: String)
        ensures
            r@ == GET_COUNT_FROM_DATA_HOST@,
    {
        String::from_str(GET_COUNT_FROM_DATA_HOST)
    }

    /// adds the generated database_id and database_name to the COOP_DATA_HOST table
    /// # Params:
    /// - ":database_id"
    /// - ":database_name"
    pub fn text_add_database_id_to_host() -> (r: String)
        ensures
            r@ == ADD_DATABASE_ID_TO_HOST@,
    {
        String::from_str(ADD_DATABASE_ID_TO_HOST)
    }

    /// Returns create table statement for storing the logcial storage policy for each table
    pub fn text_create_data_remotes_table() -> (r: String)
        ensures
            r@ == CREATE_DATA_REMOTES_TABLE@,
    {
        String::from_str(CREATE_DATA_REMOTES_TABLE)
    }

    /// Returns the `GET_LOGICAL_STORAGE_POLICY_TABLES` statement.
    pub fn text_get_logical_storage_policy_tables() -> (r: String)
        ensures
            r@ == GET_LOGICAL_STORAGE_POLICY_TABLES@,
    {
        String::from_str(GET_LOGICAL_STORAGE_POLICY_TABLES)
    }

}

} // verus!
