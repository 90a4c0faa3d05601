//! The settings of an rcd instance, the service they start, and the
//! endpoints that serve and call it.
use vstd::prelude::*;

use crate::dbi::Dbi;
use crate::rcd_enum::DatabaseType;

verus! {

/// Settings for rcd, read from its settings file or passed in on a test case.
#[derive(Debug, Clone)]
pub struct RcdSettings {
    pub admin_un: String,
    pub admin_pw: String,
    pub database_type: DatabaseType,
    pub backing_database_name: String,
    pub client_service_addr_port: String,
    pub database_service_addr_port: String,
}

/// An rcd instance: its settings and the folder it keeps its databases in
/// (empty for the current directory).
#[derive(Debug, Clone)]
pub struct RcdService {
    pub rcd_settings: RcdSettings,
    pub root_dir: String,
}

/// Whether starting on a backing store of type `db_type` sets up a SQLite
/// store; the other known types need nothing, and an unknown type is refused.
pub fn configure_backing_store(db_type: DatabaseType) -> (r: bool)
    requires
        db_type != DatabaseType::Unknown,
    ensures
        r == (db_type == DatabaseType::Sqlite),
{
    match db_type {
        DatabaseType::Sqlite => true,
        _ => false,
    }
}

impl RcdService {
    /// The folder the instance keeps its databases in: its root folder, or
    /// `current_dir` when none was set.
    pub fn cwd(&self, current_dir: &str) -> (r: String)
        ensures
            self.root_dir@.len() == 0 ==> r@ == current_dir@,
            self.root_dir@.len() > 0 ==> r@ == self.root_dir@,
    {
        if self.root_dir.as_str().unicode_len() == 0 {
            String::from_str(current_dir)
        } else {
            self.root_dir.clone()
        }
    }

    /// Whether starting the service sets up a SQLite backing store (its
    /// database and its admin login); a service on an unknown database type
    /// is refused.
    pub fn start(&self) -> (r: bool)
        requires
            self.rcd_settings.database_type != DatabaseType::Unknown,
        ensures
            r == (self.rcd_settings.database_type == DatabaseType::Sqlite),
    {
        configure_backing_store(self.rcd_settings.database_type)
    }

    /// Whether starting the service in the folder `root_dir` sets up a SQLite
    /// backing store there.
    pub fn start_at_dir(&self, root_dir: &str) -> (r: bool)
        requires
            self.rcd_settings.database_type != DatabaseType::Unknown,
        ensures
            r == (self.rcd_settings.database_type == DatabaseType::Sqlite),
    {
        configure_backing_store(self.rcd_settings.database_type)
    }
}

/// The settings built from the values of the settings file: the database
/// type code (0 to 4), the backing database name and the two service
/// addresses; the admin is "tester" with the password "123456".
pub fn get_config_from_settings(
    database_type: i64,
    backing_database_name: String,
    client_service_addr_port: String,
    database_service_addr_port: String,
) -> (r: RcdSettings)
    requires
        0 <= database_type <= 4,
    ensures
        r.admin_un@ == "tester"@,
        r.admin_pw@ == "123456"@,
        r.database_type.code() == database_type,
        r.backing_database_name == backing_database_name,
        r.client_service_addr_port == client_service_addr_port,
        r.database_service_addr_port == database_service_addr_port,
{
    RcdSettings {
        admin_un: String::from_str("tester"),
        admin_pw: String::from_str("123456"),
        database_type: DatabaseType::from_i64(database_type),
        backing_database_name,
        client_service_addr_port,
        database_service_addr_port,
    }
}

/// The service for the values read from the settings file (see
/// `get_config_from_settings`), kept in the current directory.
pub fn get_service_from_config_file(
    database_type: i64,
    backing_database_name: String,
    client_service_addr_port: String,
    database_service_addr_port: String,
) -> (r: RcdService)
    requires
        0 <= database_type <= 4,
    ensures
        r.rcd_settings.admin_un@ == "tester"@,
        r.rcd_settings.admin_pw@ == "123456"@,
        r.rcd_settings.database_type.code() == database_type,
        r.rcd_settings.backing_database_name == backing_database_name,
        r.rcd_settings.client_service_addr_port == client_service_addr_port,
        r.rcd_settings.database_service_addr_port == database_service_addr_port,
        r.root_dir@ == Seq::<char>::empty(),
{
    let settings = get_config_from_settings(
        database_type,
        backing_database_name,
        client_service_addr_port,
        database_service_addr_port,
    );
    get_service_from_config(settings)
}

/// The service for the settings `config` (normally used in testing), kept
/// in the current directory.
pub fn get_service_from_config(config: RcdSettings) -> (r: RcdService)
    ensures
        r.rcd_settings == config,
        r.root_dir@ == Seq::<char>::empty(),
{
    RcdService { rcd_settings: config, root_dir: String::new() }
}

/// A client of an rcd instance: its address and port (such as
/// `http://[::1]:50051`), and the login it identifies itself with.
pub struct RcdClient {
    pub addr_port: String,
    pub user_name: String,
    pub pw: String,
}

impl RcdClient {
    /// A client of the instance at `addr_port`, logging in as `user_name`.
    pub fn new(addr_port: String, user_name: String, pw: String) -> (r: RcdClient)
        ensures
            r.addr_port == addr_port,
            r.user_name == user_name,
            r.pw == pw,
    {
        RcdClient { addr_port, user_name, pw }
    }
}

/// The state of the service that answers clients: where its databases
/// live, its address, the address of its own data service, and its
/// database interface.
pub struct SqlClientImpl {
    pub root_folder: String,
    pub database_name: String,
    pub addr_port: String,
    pub own_db_addr_port: String,
    pub db_interface: Option<Dbi>,
}

impl SqlClientImpl {
    /// The database interface of the service; one without is refused.
    pub fn dbi(&self) -> (r: Dbi)
        requires
            self.db_interface is Some,
        ensures
            r.same_store(&self.db_interface->0),
    {
        match &self.db_interface {
            Some(d) => d.copy(),
            None => Dbi { db_type: DatabaseType::Unknown, mysql_config: None, postgres_config: None, sqlite_config: None },
        }
    }
}

/// The state of the service that answers other rcd instances: where its
/// databases live and its address.
pub struct DataServiceImpl {
    pub root_folder: String,
    pub database_name: String,
    pub addr_port: String,
}

} // verus!
