//! Database interface: an abstraction over the underlying database layer.
//! Only SQLite is served; the other database types are declared but asking
//! anything of them is refused, as it was never written for them.
//!
//! The interface decides which statements run, against which database file,
//! and what their outcomes mean; running them is left to its caller (see
//! `statement::DbStep`).
use vstd::prelude::*;

use crate::rcd_enum::{DatabaseType, LogicalStoragePolicy, RcdDbError, RcdGenerateContractError};
use crate::sqlite_store;
use crate::cdata::DatabaseSchema;
use crate::contract;
use crate::contract::ACTIVE_CONTRACT;
use crate::participant;
use crate::participant::{
    accept_params, distinct_ids, row_data_view, rows_of_id, CoopDatabaseParticipant, CoopDatabaseParticipantData,
    MetadataRow, ACCEPT_CONTRACT,
};
use crate::schema;
use crate::schema::{all_schemas_readable, is_table_schema};
use crate::table::Table;
use crate::contract::{contract_views, generate_contract_spec, CoopDatabaseContract};
use crate::sqlite_store::{
    add_participant_spec, cooperative_prefix, enable_cooperative_features_spec, host_stmt,
    policy_lookup_spec, rcd_stmt, set_policy_spec,
};
use crate::statement::{DbStatement, DbStep, SqlValueView};
use crate::query_parser::{table_names_of, texts};
use crate::sql_text::{ADD_USER, ADD_USER_ROLE, GET_ROLE, GET_USER_ROLE, HAS_LOGIN, HOST_INFO_COUNT};
use crate::text::spec_replace;

verus! {

/// The outcome of an insert into a partial database.
pub struct InsertPartialDataResult {
    pub is_successful: bool,
    pub row_id: u32,
    pub data_hash: u64,
}

/// Where the SQLite databases live: the folder, and the file name of rcd's
/// own database.
#[derive(Debug, Clone)]
pub struct DbiConfigSqlite {
    pub root_folder: String,
    pub rcd_db_name: String,
}

impl DbiConfigSqlite {
    /// A copy of the configuration.
    pub fn copy(&self) -> (r: DbiConfigSqlite)
        ensures
            r.root_folder@ == self.root_folder@,
            r.rcd_db_name@ == self.rcd_db_name@,
    {
        DbiConfigSqlite { root_folder: self.root_folder.clone(), rcd_db_name: self.rcd_db_name.clone() }
    }
}

/// Connection settings for MySQL.
#[derive(Debug, Clone)]
pub struct DbiConfigMySql {
    pub user_name: String,
    pub pw: String,
    pub connection_string: String,
    pub host: String,
    pub connect_options: String,
}

/// Connection settings for Postgres.
#[derive(Debug, Clone)]
pub struct DbiConfigPostgres {
    pub user_name: String,
    pub pw: String,
    pub connection_string: String,
    pub host: String,
    pub connect_options: String,
}

/// Database interface: the type of the backing database and its settings.
#[derive(Debug, Clone)]
pub struct Dbi {
    pub db_type: DatabaseType,
    pub mysql_config: Option<DbiConfigMySql>,
    pub postgres_config: Option<DbiConfigPostgres>,
    pub sqlite_config: Option<DbiConfigSqlite>,
}

impl Dbi {
    /// The interface serves a SQLite store and knows where it lives: the
    /// only case in which its operations are written.
    pub open spec fn serves_sqlite(&self) -> bool {
        self.db_type == DatabaseType::Sqlite && self.sqlite_config is Some
    }

    /// The SQLite settings of the interface.
    pub open spec fn config(&self) -> DbiConfigSqlite {
        self.sqlite_config->0
    }

    /// Whether `other` serves the same store: the same database type and
    /// the same SQLite settings, if any.
    pub open spec fn same_store(&self, other: &Dbi) -> bool {
        &&& self.db_type == other.db_type
        &&& (self.sqlite_config is Some <==> other.sqlite_config is Some)
        &&& (self.sqlite_config is Some ==> self.config().root_folder@ == other.config().root_folder@
            && self.config().rcd_db_name@ == other.config().rcd_db_name@)
    }

    /// A copy of the interface, serving the same store.
    pub fn copy(&self) -> (r: Dbi)
        ensures
            r.same_store(self),
    {
        let sqlite_config = match &self.sqlite_config {
            Some(c) => Some(c.copy()),
            None => None,
        };
        Dbi {
            db_type: self.db_type,
            mysql_config: self.mysql_config.clone(),
            postgres_config: self.postgres_config.clone(),
            sqlite_config,
        }
    }

    /// The type of the backing database.
    pub fn db_type(&self) -> (r: DatabaseType)
        ensures
            r == self.db_type,
    {
        self.db_type
    }

    /// The SQLite settings; asking an interface without them is refused.
    pub fn get_sqlite_settings(&self) -> (r: DbiConfigSqlite)
        requires
            self.sqlite_config is Some,
        ensures
            r.root_folder@ == self.config().root_folder@,
            r.rcd_db_name@ == self.config().rcd_db_name@,
    {
        match &self.sqlite_config {
            Some(c) => c.copy(),
            None => DbiConfigSqlite { root_folder: String::new(), rcd_db_name: String::new() },
        }
    }

    /// The statement that counts the roles named `role_name`.
    pub fn has_role_name(&self, role_name: &str) -> (r: DbStatement)
        requires
            self.serves_sqlite(),
        ensures
            r@ == rcd_stmt(self.config(), GET_ROLE@, seq![(":rolename"@, SqlValueView::Text(role_name@))]),
    {
        sqlite_store::has_role_name(role_name, &self.get_sqlite_settings())
    }

    /// The statement that adds `login` to the role `role_name`.
    pub fn add_login_to_role(&self, login: &str, role_name: &str) -> (r: DbStatement)
        requires
            self.serves_sqlite(),
        ensures
            r@ == rcd_stmt(
                self.config(),
                ADD_USER_ROLE@,
                seq![(":username"@, SqlValueView::Text(login@)), (":rolename"@, SqlValueView::Text(role_name@))],
            ),
    {
        sqlite_store::add_login_to_role(login, role_name, &self.get_sqlite_settings())
    }

    /// The statement that counts the memberships of `login` in `role_name`.
    pub fn login_is_in_role(&self, login: &str, role_name: &str) -> (r: DbStatement)
        requires
            self.serves_sqlite(),
        ensures
            r@ == rcd_stmt(
                self.config(),
                GET_USER_ROLE@,
                seq![(":username"@, SqlValueView::Text(login@)), (":rolename"@, SqlValueView::Text(role_name@))],
            ),
    {
        sqlite_store::login_is_in_role(login, role_name, &self.get_sqlite_settings())
    }

    /// The statement that saves the login `login` with the hash `pw_hash`
    /// of its password.
    pub fn create_login(&self, login: &str, pw_hash: Vec<u8>) -> (r: DbStatement)
        requires
            self.serves_sqlite(),
        ensures
            r@ == rcd_stmt(
                self.config(),
                ADD_USER@,
                seq![(":username"@, SqlValueView::Text(login@)), (":hash"@, SqlValueView::Blob(pw_hash@))],
            ),
    {
        sqlite_store::create_login(login, pw_hash, &self.get_sqlite_settings())
    }

    /// The statement that counts the logins named `login`.
    pub fn has_login(&self, login: &str) -> (r: DbStatement)
        requires
            self.serves_sqlite(),
        ensures
            r@ == rcd_stmt(self.config(), HAS_LOGIN@, seq![(":username"@, SqlValueView::Text(login@))]),
    {
        sqlite_store::has_login(login, &self.get_sqlite_settings())
    }

    /// The statement that counts the rows of the host information.
    pub fn if_rcd_host_info_exists(&self) -> (r: DbStatement)
        requires
            self.serves_sqlite(),
        ensures
            r@ == rcd_stmt(self.config(), HOST_INFO_COUNT@, Seq::empty()),
    {
        sqlite_store::if_host_info_exists(&self.get_sqlite_settings())
    }

    /// The statement that counts the tables named `table_name` in `db_name`.
    pub fn has_table(&self, db_name: &str, table_name: &str) -> (r: DbStatement)
        requires
            self.serves_sqlite(),
        ensures
            r@ == host_stmt(
                self.config(),
                db_name@,
                spec_replace(crate::sql_text::HAS_TABLE@, ":table_name"@, table_name@),
                Seq::empty(),
            ),
    {
        sqlite_store::has_table_client_service(db_name, table_name, &self.get_sqlite_settings())
    }

    /// The statement that runs the write `cmd` against `db_name`.
    pub fn execute_write(&self, db_name: &str, cmd: &str) -> (r: DbStatement)
        requires
            self.serves_sqlite(),
        ensures
            r@ == host_stmt(self.config(), db_name@, cmd@, Seq::empty()),
    {
        sqlite_store::execute_write_on_connection(db_name, cmd, &self.get_sqlite_settings())
    }

    /// Whether a statement touches cooperative tables; not yet decided by
    /// reading the statement, so always false.
    pub fn has_cooperative_tables_mock(&self, db_name: &str, cmd: &str) -> (r: bool)
        ensures
            !r,
    {
        false
    }

    /// The step of looking up the logical storage policy of a table (see
    /// `sqlite_store::get_logical_storage_policy`).
    pub fn get_logical_storage_policy(&self, db_name: &str, table_name: &str, answers: &Vec<u64>) -> (r:
        DbStep<Result<LogicalStoragePolicy, RcdDbError>>)
        requires
            self.serves_sqlite(),
            answers@.len() >= 3 ==> answers@[2] <= 4,
        ensures
            policy_lookup_spec(self.config(), db_name@, table_name@, answers@, r),
    {
        sqlite_store::get_logical_storage_policy(db_name, table_name, &self.get_sqlite_settings(), answers)
    }

    /// The cooperative tables among those that `cmd` names, given the policy
    /// lookup of each of them (see `sqlite_store::get_cooperative_tables`).
    pub fn get_cooperative_tables(
        &self,
        db_name: &str,
        cmd: &str,
        policies: &Vec<Result<LogicalStoragePolicy, RcdDbError>>,
    ) -> (r: Vec<String>)
        requires
            self.serves_sqlite(),
            policies@.len() == table_names_of(cmd@).len(),
        ensures
            texts(r@) == cooperative_prefix(table_names_of(cmd@), policies@),
    {
        sqlite_store::get_cooperative_tables(db_name, cmd, &self.get_sqlite_settings(), policies)
    }

    /// Generates a contract for a user database: the next step, given the
    /// outcomes of the steps taken so far (see
    /// `contract::generate_contract_spec`).
    pub fn generate_contract(
        &self,
        db_name: &str,
        policies: &Vec<(String, LogicalStoragePolicy)>,
        existing: &Vec<CoopDatabaseContract>,
        new_contract: &CoopDatabaseContract,
        now: &str,
        answers: &Vec<u64>,
    ) -> (r: DbStep<Result<bool, RcdGenerateContractError>>)
        requires
            self.serves_sqlite(),
        ensures
            generate_contract_spec(
                self.config().root_folder@,
                db_name@,
                policies@,
                contract_views(existing@),
                new_contract@,
                now@,
                answers@,
                r,
            ),
    {
        contract::generate_contract(db_name, policies, existing, new_contract, now, &self.get_sqlite_settings(), answers)
    }

    /// The statement that counts the participants of `db_name` with alias
    /// `participant_alias`.
    pub fn has_participant(&self, db_name: &str, participant_alias: &str) -> (r: DbStatement)
        requires
            self.serves_sqlite(),
        ensures
            r@ == host_stmt(
                self.config(),
                db_name@,
                spec_replace(crate::sql_text::PARTICIPANT_COUNT@, ":alias"@, participant_alias@),
                Seq::empty(),
            ),
    {
        sqlite_store::has_participant(db_name, participant_alias, &self.get_sqlite_settings())
    }

    /// The statement that reads the participant of `db_name` with alias
    /// `participant_alias`.
    pub fn get_participant_by_alias(&self, db_name: &str, participant_alias: &str) -> (r: DbStatement)
        requires
            self.serves_sqlite(),
        ensures
            r@ == host_stmt(
                self.config(),
                db_name@,
                crate::sql_text::GET_PARTICIPANT_BY_ALIAS@,
                seq![(":alias"@, SqlValueView::Text(participant_alias@))],
            ),
    {
        sqlite_store::get_participant_by_alias(db_name, participant_alias, &self.get_sqlite_settings())
    }

    /// Adds a participant unless one with the same alias is there (see
    /// `sqlite_store::add_participant`).
    pub fn add_participant(
        &self,
        db_name: &str,
        alias: &str,
        ip4addr: &str,
        db_port: u32,
        answers: &Vec<u64>,
    ) -> (r: DbStep<bool>)
        requires
            self.serves_sqlite(),
        ensures
            add_participant_spec(self.config(), db_name@, alias@, ip4addr@, db_port, answers@, r),
    {
        sqlite_store::add_participant(db_name, alias, ip4addr, db_port, &self.get_sqlite_settings(), answers)
    }

    /// Sets the logical storage policy of a table (see
    /// `sqlite_store::set_logical_storage_policy`).
    pub fn set_logical_storage_policy(
        &self,
        db_name: &str,
        table_name: &str,
        policy: LogicalStoragePolicy,
        answers: &Vec<u64>,
    ) -> (r: DbStep<Result<bool, RcdDbError>>)
        requires
            self.serves_sqlite(),
        ensures
            set_policy_spec(self.config(), db_name@, table_name@, policy, answers@, r),
    {
        sqlite_store::set_logical_storage_policy(db_name, table_name, policy, &self.get_sqlite_settings(), answers)
    }

    /// Enables cooperative features on a user database (see
    /// `sqlite_store::enable_coooperative_features`).
    pub fn enable_coooperative_features(&self, db_name: &str, answers: &Vec<u64>) -> (r: DbStep<()>)
        requires
            self.serves_sqlite(),
        ensures
            enable_cooperative_features_spec(self.config(), db_name@, answers@, r),
    {
        sqlite_store::enable_coooperative_features(db_name, &self.get_sqlite_settings(), answers)
    }
}

impl Dbi {
    /// The participants holding rows of a table, each with the rows it
    /// holds, from the rows of the table's metadata table (see
    /// `participant::get_participants_for_table`).
    pub fn get_participants_for_table(
        &self,
        db_name: &str,
        table_name: &str,
        metadata: &Vec<MetadataRow>,
        participants: Vec<CoopDatabaseParticipant>,
    ) -> (r: Vec<CoopDatabaseParticipantData>)
        requires
            self.serves_sqlite(),
            participants@.len() == distinct_ids(metadata@).len(),
            forall|i: int|
                0 <= i < participants@.len() ==> (#[trigger] participants@[i]).internal_id@
                    == distinct_ids(metadata@)[i],
        ensures
            r@.len() == distinct_ids(metadata@).len(),
            forall|i: int|
                0 <= i < r@.len() ==> {
                    &&& (#[trigger] r@[i]).participant == participants@[i]
                    &&& r@[i].participant.internal_id@ == distinct_ids(metadata@)[i]
                    &&& r@[i].db_name@ == db_name@
                    &&& r@[i].table_name@ == table_name@
                    &&& row_data_view(r@[i].row_data@) == rows_of_id(metadata@, distinct_ids(metadata@)[i])
                },
            forall|i: int, j: int|
                0 <= i < j < r@.len() ==> r@[i].participant.internal_id@ != r@[j].participant.internal_id@,
            forall|j: int|
                0 <= j < metadata@.len() ==> exists|i: int|
                    0 <= i < r@.len() && r@[i].participant.internal_id@ == #[trigger] metadata@[j].0@,
    {
        participant::get_participants_for_table(db_name, table_name, metadata, participants)
    }

    /// The schema of a user database (see `schema::get_db_schema`).
    pub fn get_database_schema(
        &self,
        db_name: &str,
        db_id: &str,
        tables: &Vec<(String, String)>,
        policies: &Vec<LogicalStoragePolicy>,
        schemas: &Vec<Table>,
    ) -> (r: Option<DatabaseSchema>)
        requires
            self.serves_sqlite(),
            policies@.len() == tables@.len(),
            schemas@.len() == tables@.len(),
        ensures
            r is Some <==> all_schemas_readable(tables@, schemas@),
            r matches Some(s) ==> {
                &&& s.database_name@ == db_name@
                &&& s.database_id@ == db_id@
                &&& s.tables@.len() == tables@.len()
                &&& forall|x: int|
                    0 <= x < tables@.len() ==> is_table_schema(
                        #[trigger] s.tables@[x],
                        db_name@,
                        db_id@,
                        tables@,
                        policies@,
                        schemas@,
                        x,
                    )
            },
    {
        schema::get_db_schema(db_name, db_id, tables, policies, schemas)
    }

    /// The statement that reads the active contract of a user database.
    pub fn get_active_contract(&self, db_name: &str) -> (r: DbStatement)
        requires
            self.serves_sqlite(),
        ensures
            r@.folder == self.config().root_folder@,
            r@.file == db_name@,
            r@.sql == ACTIVE_CONTRACT@,
            r@.params.len() == 0,
    {
        contract::active_contract_statement(db_name, &self.get_sqlite_settings())
    }

    /// The statement that records that a participant accepted a contract
    /// (see `participant::update_participant_accepts_contract`).
    pub fn update_participant_accepts_contract(
        &self,
        db_name: &str,
        participant: &CoopDatabaseParticipant,
        participant_guid: &str,
        token: &Vec<u8>,
        accepted_contract_version_id: &str,
    ) -> (r: DbStatement)
        requires
            self.serves_sqlite(),
        ensures
            r@.folder == self.config().root_folder@,
            r@.file == db_name@,
            r@.sql == ACCEPT_CONTRACT@,
            r@.params == accept_params(
                accepted_contract_version_id@,
                participant_guid@,
                token@,
                participant.internal_id@,
            ),
    {
        participant::update_participant_accepts_contract(
            db_name,
            participant,
            participant_guid,
            token,
            accepted_contract_version_id,
            &self.get_sqlite_settings(),
        )
    }
}

} // verus!
