//! rcd's own database: its tables, the admin login, the host information
//! that identifies this rcd instance to others, and the hosts it knows.
use vstd::prelude::*;

use crate::dbi::{Dbi, DbiConfigSqlite};
use crate::guid::new_guid_text;
use crate::sql_text::{
    ADD_HOST_INFO, ADD_SYSADMIN_ROLE, ADD_USER, ADD_USER_ROLE, CREATE_CDS_CONTRACTS_TABLE,
    CREATE_CDS_CONTRACTS_TABLES_SCHEMAS_TABLE, CREATE_CDS_CONTRACTS_TABLES_TABLE,
    CREATE_CDS_HOSTS_TABLE, CREATE_HOST_INFO_TABLE, CREATE_ROLE_TABLE, CREATE_USER_ROLE_TABLE,
    CREATE_USER_TABLE, GET_HOST_INFO, GET_ROLE, GET_USER_ROLE, HAS_LOGIN, HOST_INFO_COUNT,
    HOST_TOKEN_BY_ID, HOST_TOKEN_BY_NAME,
};
use crate::sqlite_store::{
    add_login_to_role, create_login, has_login, has_role_name, if_host_info_exists, login_is_in_role,
    rcd_stmt,
};
use crate::statement::{
    blob_param, plain_statement, text_param, with_param, DbStatement, DbStep, SqlValueView,
};
use crate::text::{replace, spec_replace};

verus! {

/// A login and the hash of its password.
#[derive(Debug)]
pub struct User {
    pub username: String,
    pub hash: String,
}

/// The information that identifies an rcd instance to others; from the
/// perspective of participants, this is the host.
#[derive(Clone)]
pub struct HostInfo {
    pub id: String,
    pub name: String,
    pub token: Vec<u8>,
}

/// The role that the admin login is given.
pub open spec fn sysadmin() -> Seq<char> {
    "SysAdmin"@
}

/// The statements that create the tables of rcd's own database, in order.
pub open spec fn rcd_table_sql(k: int) -> Seq<char> {
    if k == 0 {
        CREATE_USER_TABLE@
    } else if k == 1 {
        CREATE_ROLE_TABLE@
    } else if k == 2 {
        CREATE_USER_ROLE_TABLE@
    } else if k == 3 {
        CREATE_HOST_INFO_TABLE@
    } else if k == 4 {
        CREATE_CDS_CONTRACTS_TABLE@
    } else if k == 5 {
        CREATE_CDS_HOSTS_TABLE@
    } else if k == 6 {
        CREATE_CDS_CONTRACTS_TABLES_TABLE@
    } else {
        CREATE_CDS_CONTRACTS_TABLES_SCHEMAS_TABLE@
    }
}

fn rcd_table_statement(k: usize, config: &DbiConfigSqlite) -> (r: DbStatement)
    requires
        k < 8,
    ensures
        r@ == rcd_stmt(*config, rcd_table_sql(k as int), Seq::empty()),
{
    let sql = if k == 0 {
        CREATE_USER_TABLE
    } else if k == 1 {
        CREATE_ROLE_TABLE
    } else if k == 2 {
        CREATE_USER_ROLE_TABLE
    } else if k == 3 {
        CREATE_HOST_INFO_TABLE
    } else if k == 4 {
        CREATE_CDS_CONTRACTS_TABLE
    } else if k == 5 {
        CREATE_CDS_HOSTS_TABLE
    } else if k == 6 {
        CREATE_CDS_CONTRACTS_TABLES_TABLE
    } else {
        CREATE_CDS_CONTRACTS_TABLES_SCHEMAS_TABLE
    };
    plain_statement(config.root_folder.as_str(), config.rcd_db_name.as_str(), sql)
}

/// The steps of setting up rcd's own database: nothing if its file already
/// exists; otherwise create its eight tables, count the SysAdmin roles, and
/// add that role if there is none.
pub open spec fn configure_rcd_db_spec(
    config: DbiConfigSqlite,
    db_exists: bool,
    answers: Seq<u64>,
    r: DbStep<()>,
) -> bool {
    if db_exists {
        r is Done
    } else if answers.len() < 8 {
        r matches DbStep::Execute(st) && st@ == rcd_stmt(config, rcd_table_sql(answers.len() as int), Seq::empty())
    } else if answers.len() == 8 {
        r matches DbStep::Query(st) && st@ == rcd_stmt(
            config,
            GET_ROLE@,
            seq![(":rolename"@, SqlValueView::Text(sysadmin()))],
        )
    } else if answers.len() == 9 && answers[8] == 0 {
        r matches DbStep::Execute(st) && st@ == rcd_stmt(config, ADD_SYSADMIN_ROLE@, Seq::empty())
    } else {
        r is Done
    }
}

/// Sets up rcd's own database if its file does not exist yet (`db_exists`
/// is whether it does): the next step, given the outcomes of the steps
/// taken so far (see `configure_rcd_db_spec`).
pub fn configure_rcd_db(config: &DbiConfigSqlite, db_exists: bool, answers: &Vec<u64>) -> (r: DbStep<()>)
    ensures
        configure_rcd_db_spec(*config, db_exists, answers@, r),
{
    if db_exists {
        return DbStep::Done(());
    }
    let n = answers.len();
    if n < 8 {
        return DbStep::Execute(rcd_table_statement(n, config));
    }
    if n == 8 {
        proof {
            reveal_strlit("SysAdmin");
        }
        return DbStep::Query(has_role_name("SysAdmin", config));
    }
    if n == 9 && answers[8] == 0 {
        return DbStep::Execute(plain_statement(
            config.root_folder.as_str(),
            config.rcd_db_name.as_str(),
            ADD_SYSADMIN_ROLE,
        ));
    }
    DbStep::Done(())
}

/// The steps of configuring the admin: count the logins named `login` and
/// save it with `pw_hash` if there is none; then count its SysAdmin
/// memberships and add it to that role if it has none.
pub open spec fn configure_admin_spec(
    config: DbiConfigSqlite,
    login: Seq<char>,
    pw_hash: Seq<u8>,
    answers: Seq<u64>,
    r: DbStep<()>,
) -> bool {
    let role_params = seq![(":username"@, SqlValueView::Text(login)), (":rolename"@, SqlValueView::Text(sysadmin()))];
    if answers.len() == 0 {
        r matches DbStep::Query(st) && st@ == rcd_stmt(config, HAS_LOGIN@, seq![(":username"@, SqlValueView::Text(login))])
    } else if answers[0] == 0 && answers.len() == 1 {
        r matches DbStep::Execute(st) && st@ == rcd_stmt(
            config,
            ADD_USER@,
            seq![(":username"@, SqlValueView::Text(login)), (":hash"@, SqlValueView::Blob(pw_hash))],
        )
    } else {
        // the position of the membership count among the outcomes
        let k: int = if answers[0] == 0 {
            2
        } else {
            1
        };
        if answers.len() == k {
            r matches DbStep::Query(st) && st@ == rcd_stmt(config, GET_USER_ROLE@, role_params)
        } else if answers.len() == k + 1 && answers[k] == 0 {
            r matches DbStep::Execute(st) && st@ == rcd_stmt(config, ADD_USER_ROLE@, role_params)
        } else {
            r is Done
        }
    }
}

/// Creates an admin login if one does not already exist and adds it to the
/// `SysAdmin` role if it is not in it: the next step, given the outcomes of
/// the steps taken so far (see `configure_admin_spec`). `pw_hash` is the
/// hash of the admin's password that is saved with a new login.
pub fn configure_admin(login: &str, pw_hash: &Vec<u8>, config: &DbiConfigSqlite, answers: &Vec<u64>) -> (r:
    DbStep<()>)
    ensures
        configure_admin_spec(*config, login@, pw_hash@, answers@, r),
{
    proof {
        reveal_strlit("SysAdmin");
    }
    let n = answers.len();
    if n == 0 {
        return DbStep::Query(has_login(login, config));
    }
    if answers[0] == 0 && n == 1 {
        return DbStep::Execute(create_login(login, pw_hash.clone(), config));
    }
    let k: usize = if answers[0] == 0 {
        2
    } else {
        1
    };
    if n == k {
        return DbStep::Query(login_is_in_role(login, "SysAdmin", config));
    }
    if n == k + 1 && answers[k] == 0 {
        return DbStep::Execute(add_login_to_role(login, "SysAdmin", config));
    }
    DbStep::Done(())
}

/// The statement that reads the host information.
pub fn get_host_info(config: &DbiConfigSqlite) -> (r: DbStatement)
    ensures
        r@ == rcd_stmt(*config, GET_HOST_INFO@, Seq::empty()),
{
    plain_statement(config.root_folder.as_str(), config.rcd_db_name.as_str(), GET_HOST_INFO)
}

/// A statement that saves host information for `host_name` with `token`
/// and a fresh identifier `id` (36 characters).
pub open spec fn is_host_info_insert(
    config: DbiConfigSqlite,
    host_name: Seq<char>,
    token: Seq<u8>,
    st: DbStatement,
) -> bool {
    exists|id: Seq<char>|
        id.len() == 36 && st@ == rcd_stmt(
            config,
            ADD_HOST_INFO@,
            seq![
                (":id"@, SqlValueView::Text(id)),
                (":name"@, SqlValueView::Text(host_name)),
                (":token"@, SqlValueView::Blob(token)),
            ],
        )
}

/// The statement that saves new host information for `host_name` with a
/// fresh identifier and the token `token`.
pub fn generate_host_info(host_name: &str, token: Vec<u8>, config: &DbiConfigSqlite) -> (r:
    DbStatement)
    ensures
        is_host_info_insert(*config, host_name@, token@, r),
{
    let id = new_guid_text();
    let ghost idv = id@;
    let ghost tv = token@;
    let st = plain_statement(config.root_folder.as_str(), config.rcd_db_name.as_str(), ADD_HOST_INFO);
    let st = with_param(st, text_param(":id", id.as_str()));
    let st = with_param(st, text_param(":name", host_name));
    let r = with_param(st, blob_param(":token", token));
    assert(r@.params =~= seq![
        (":id"@, SqlValueView::Text(idv)),
        (":name"@, SqlValueView::Text(host_name@)),
        (":token"@, SqlValueView::Blob(tv)),
    ]);
    assert(r@ == rcd_stmt(
        *config,
        ADD_HOST_INFO@,
        seq![
            (":id"@, SqlValueView::Text(idv)),
            (":name"@, SqlValueView::Text(host_name@)),
            (":token"@, SqlValueView::Blob(tv)),
        ],
    ));
    r
}

/// The steps of making sure that host information exists: count its rows;
/// if there are none, save new information; then finish with the statement
/// that reads the current information.
pub open spec fn generate_and_get_host_info_spec(
    config: DbiConfigSqlite,
    host_name: Seq<char>,
    token: Seq<u8>,
    answers: Seq<u64>,
    r: DbStep<DbStatement>,
) -> bool {
    if answers.len() == 0 {
        r matches DbStep::Query(st) && st@ == rcd_stmt(config, HOST_INFO_COUNT@, Seq::empty())
    } else if answers[0] == 0 && answers.len() == 1 {
        r matches DbStep::Execute(st) && is_host_info_insert(config, host_name, token, st)
    } else {
        r matches DbStep::Done(st) && st@ == rcd_stmt(config, GET_HOST_INFO@, Seq::empty())
    }
}

/// Generates the host information and saves it if it has not already been
/// generated; always ends with the statement that reads the current host
/// information (see `generate_and_get_host_info_spec`). `token` is the
/// token saved with new host information.
pub fn generate_and_get_host_info(
    host_name: &str,
    token: &Vec<u8>,
    config: &DbiConfigSqlite,
    answers: &Vec<u64>,
) -> (r: DbStep<DbStatement>)
    ensures
        generate_and_get_host_info_spec(*config, host_name@, token@, answers@, r),
{
    let n = answers.len();
    if n == 0 {
        return DbStep::Query(if_host_info_exists(config));
    }
    if answers[0] == 0 && n == 1 {
        return DbStep::Execute(generate_host_info(host_name, token.clone(), config));
    }
    DbStep::Done(get_host_info(config))
}

/// The host information that a read of it returned first: its id, its name,
/// and the bytes of its token text.
pub fn host_info_from_row(host_id: String, host_name: String, token: String) -> (r: HostInfo)
    ensures
        r.id == host_id,
        r.name == host_name,
        r.token@ == vstd::utf8::encode_utf8(token@),
{
    let bytes = token.as_str().as_bytes_vec();
    HostInfo { id: host_id, name: host_name, token: bytes }
}

/// Whether two byte strings hold the same bytes.
pub fn do_vecs_match(a: &Vec<u8>, b: &Vec<u8>) -> (r: bool)
    ensures
        r == (a@ == b@),
{
    if a.len() != b.len() {
        return false;
    }
    let mut i: usize = 0;
    while i < a.len()
        invariant
            a.len() == b.len(),
            forall|j: int| 0 <= j < i ==> a@[j] == b@[j],
        decreases a.len() - i,
    {
        if a[i] != b[i] {
            return false;
        }
        i = i + 1;
    }
    assert(a@ =~= b@);
    true
}

/// The statement that reads the tokens of the host with id `host_id`.
pub fn host_tokens_by_id(host_id: &str, config: &DbiConfigSqlite) -> (r: DbStatement)
    ensures
        r@ == rcd_stmt(*config, spec_replace(HOST_TOKEN_BY_ID@, ":hid"@, host_id@), Seq::empty()),
{
    proof {
        reveal_strlit(":hid");
    }
    let cmd = replace(HOST_TOKEN_BY_ID, ":hid", host_id);
    plain_statement(config.root_folder.as_str(), config.rcd_db_name.as_str(), cmd.as_str())
}

/// The statement that reads the tokens of the host named `host_name`.
pub fn host_tokens_by_name(host_name: &str, config: &DbiConfigSqlite) -> (r: DbStatement)
    ensures
        r@ == rcd_stmt(*config, spec_replace(HOST_TOKEN_BY_NAME@, ":name"@, host_name@), Seq::empty()),
{
    proof {
        reveal_strlit(":name");
    }
    let cmd = replace(HOST_TOKEN_BY_NAME, ":name", host_name);
    plain_statement(config.root_folder.as_str(), config.rcd_db_name.as_str(), cmd.as_str())
}

/// Whether a host, whose saved tokens are `returned_tokens` (read by
/// `host_tokens_by_id`), presented its token: false for an unknown host;
/// otherwise whether the last saved token is `token`.
pub fn verify_host_by_id(token: &Vec<u8>, returned_tokens: &Vec<Vec<u8>>) -> (r: bool)
    ensures
        r == (returned_tokens@.len() > 0 && token@ == returned_tokens@.last()@),
{
    if returned_tokens.len() == 0 {
        false
    } else {
        do_vecs_match(token, &returned_tokens[returned_tokens.len() - 1])
    }
}

/// Whether a host, whose saved tokens are `returned_tokens` (read by
/// `host_tokens_by_name`), presented its last saved token. A host without
/// any saved token is refused.
pub fn verify_host_by_name(token: &Vec<u8>, returned_tokens: &Vec<Vec<u8>>) -> (r: bool)
    requires
        returned_tokens@.len() > 0,
    ensures
        r == (token@ == returned_tokens@.last()@),
{
    do_vecs_match(token, &returned_tokens[returned_tokens.len() - 1])
}

/// Configures an rcd backing store: the steps of setting up rcd's own
/// database through the interface `dbi`.
pub fn configure(dbi: &Dbi, db_exists: bool, answers: &Vec<u64>) -> (r: DbStep<()>)
    requires
        dbi.serves_sqlite(),
    ensures
        configure_rcd_db_spec(dbi.config(), db_exists, answers@, r),
{
    dbi.configure_rcd_db(db_exists, answers)
}

impl Dbi {
    /// Sets up rcd's own database (see `rcd_db::configure_rcd_db`).
    pub fn configure_rcd_db(&self, db_exists: bool, answers: &Vec<u64>) -> (r: DbStep<()>)
        requires
            self.serves_sqlite(),
        ensures
            configure_rcd_db_spec(self.config(), db_exists, answers@, r),
    {
        configure_rcd_db(&self.get_sqlite_settings(), db_exists, answers)
    }

    /// Configures the admin login (see `rcd_db::configure_admin`).
    pub fn configure_admin(&self, login: &str, pw_hash: &Vec<u8>, answers: &Vec<u64>) -> (r: DbStep<()>)
        requires
            self.serves_sqlite(),
        ensures
            configure_admin_spec(self.config(), login@, pw_hash@, answers@, r),
    {
        configure_admin(login, pw_hash, &self.get_sqlite_settings(), answers)
    }

    /// The statement that reads the host information.
    pub fn rcd_get_host_info(&self) -> (r: DbStatement)
        requires
            self.serves_sqlite(),
        ensures
            r@ == rcd_stmt(self.config(), GET_HOST_INFO@, Seq::empty()),
    {
        get_host_info(&self.get_sqlite_settings())
    }

    /// The statement that saves new host information for `host_name`.
    pub fn rcd_generate_host_info(&self, host_name: &str, token: Vec<u8>) -> (r: DbStatement)
        requires
            self.serves_sqlite(),
        ensures
            is_host_info_insert(self.config(), host_name@, token@, r),
    {
        generate_host_info(host_name, token, &self.get_sqlite_settings())
    }

    /// Makes sure host information exists and reads it (see
    /// `rcd_db::generate_and_get_host_info`).
    pub fn generate_and_get_host_info(&self, host_name: &str, token: &Vec<u8>, answers: &Vec<u64>) -> (r:
        DbStep<DbStatement>)
        requires
            self.serves_sqlite(),
        ensures
            generate_and_get_host_info_spec(self.config(), host_name@, token@, answers@, r),
    {
        generate_and_get_host_info(host_name, token, &self.get_sqlite_settings(), answers)
    }
}

/// Configuring an admin that is already there, with its SysAdmin role,
/// writes nothing: after its login and its membership are found, the
/// operation is done.
pub proof fn law_configure_admin_is_idempotent(
    config: DbiConfigSqlite,
    login: Seq<char>,
    pw_hash: Seq<u8>,
    logins: u64,
    memberships: u64,
    first: DbStep<()>,
    second: DbStep<()>,
)
    requires
        logins > 0,
        memberships > 0,
        configure_admin_spec(config, login, pw_hash, seq![logins], first),
        configure_admin_spec(config, login, pw_hash, seq![logins, memberships], second),
    ensures
        first is Query,
        second is Done,
{
}

/// Host information is generated only once: where it exists, the operation
/// saves nothing and ends with the statement that reads it.
pub proof fn law_host_info_generated_once(
    config: DbiConfigSqlite,
    host_name: Seq<char>,
    token: Seq<u8>,
    count: u64,
    r: DbStep<DbStatement>,
)
    requires
        count > 0,
        generate_and_get_host_info_spec(config, host_name, token, seq![count], r),
    ensures
        r matches DbStep::Done(st) && st@ == rcd_stmt(config, GET_HOST_INFO@, Seq::empty()),
{
}

} // verus!
