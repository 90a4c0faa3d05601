//! The SQLite backing store: which statements each operation runs, against
//! which database file, and what their outcomes mean.
//!
//! rcd's own database is the file `rcd_db_name` in `root_folder`; a user
//! database hosted here is the file of its name in that folder; a partial
//! database, held for a remote host, is the file named by
//! `partial_db_file_name`.
use vstd::prelude::*;

use crate::dbi::DbiConfigSqlite;
use crate::guid::{new_guid_text, EMPTY_GUID};
use crate::participant::{
    insert_params, participant_count, participant_count_sql, participant_from_row, save_participant,
    update_params, CoopDatabaseParticipant, UPDATE_PARTICIPANT,
};
use crate::guid::{is_guid_pattern, upper_guid};
use crate::query_parser::{get_table_names, table_names_of, texts};
use crate::rcd_enum::{
    ContractStatus, DatabaseType, LogicalStoragePolicy, RcdDbError, RcdGenerateContractError,
};
use crate::sql_text::{
    ADD_USER, GET_USER_ROLE, ADD_USER_ROLE, GET_ROLE, CREATE_DATA_HOST_TABLE, CREATE_DATA_HOST_TABLES_TABLE, CREATE_DATA_HOST_TABLES_COLUMNS_TABLE, GET_COUNT_FROM_DATA_HOST, ADD_DATABASE_ID_TO_HOST, CREATE_DATA_REMOTES_TABLE, HAS_LOGIN, HOST_INFO_COUNT, HAS_TABLE, REMOTES_COUNT_FOR_TABLE, REMOTES_POLICY_FOR_TABLE, REMOTES_UPDATE_POLICY, REMOTES_INSERT_POLICY, CREATE_PARTICIPANT_TABLE, CREATE_REMOTES_TABLE, CREATE_COOP_CONTRACTS_TABLE, PARTICIPANT_COUNT, ADD_PARTICIPANT, SCHEMA_OF_TABLE, READ_ROW_ID, GET_ROW, GET_PARTICIPANT_BY_ALIAS, GET_LOGICAL_STORAGE_POLICY_TABLES,
};
use crate::statement::{
    blob_param, int_param, plain_statement, stmt, text_param, with_param, DbStatement,
    DbStatementView, DbStep, SqlValueView,
};
use crate::text::{decimal, replace, spec_replace, u32_to_text};

verus! {

/// A statement against rcd's own database.
pub open spec fn rcd_stmt(
    config: DbiConfigSqlite,
    sql: Seq<char>,
    params: Seq<(Seq<char>, SqlValueView)>,
) -> DbStatementView {
    stmt(config.root_folder@, config.rcd_db_name@, sql, params)
}

/// A statement against the user database `db`.
pub open spec fn host_stmt(
    config: DbiConfigSqlite,
    db: Seq<char>,
    sql: Seq<char>,
    params: Seq<(Seq<char>, SqlValueView)>,
) -> DbStatementView {
    stmt(config.root_folder@, db, sql, params)
}

/// The file of the partial database for `db`: the name without ".db" and
/// ".dbpart", in that order, followed by ".dbpart".
pub open spec fn partial_file_name(db: Seq<char>) -> Seq<char> {
    spec_replace(spec_replace(db, ".db"@, Seq::empty()), ".dbpart"@, Seq::empty()) + ".dbpart"@
}

/// A statement against the partial database for `db`.
pub open spec fn partial_stmt(
    config: DbiConfigSqlite,
    db: Seq<char>,
    sql: Seq<char>,
    params: Seq<(Seq<char>, SqlValueView)>,
) -> DbStatementView {
    stmt(config.root_folder@, partial_file_name(db), sql, params)
}

/// `sql` with `:table_name` replaced by `table`.
pub open spec fn for_table(sql: Seq<char>, table: Seq<char>) -> Seq<char> {
    spec_replace(sql, ":table_name"@, table)
}

fn rcd_statement(sql: &str, config: &DbiConfigSqlite) -> (r: DbStatement)
    ensures
        r@ == rcd_stmt(*config, sql@, Seq::empty()),
{
    plain_statement(config.root_folder.as_str(), config.rcd_db_name.as_str(), sql)
}

fn host_statement(db_name: &str, sql: &str, config: &DbiConfigSqlite) -> (r: DbStatement)
    ensures
        r@ == host_stmt(*config, db_name@, sql@, Seq::empty()),
{
    plain_statement(config.root_folder.as_str(), db_name, sql)
}

fn table_statement(db_name: &str, sql: &str, table_name: &str, config: &DbiConfigSqlite) -> (r:
    DbStatement)
    ensures
        r@ == host_stmt(*config, db_name@, for_table(sql@, table_name@), Seq::empty()),
{
    proof {
        reveal_strlit(":table_name");
    }
    let cmd = replace(sql, ":table_name", table_name);
    host_statement(db_name, cmd.as_str(), config)
}

/// The file name of the partial database held for `db_name`.
pub fn partial_db_file_name(db_name: &str) -> (r: String)
    ensures
        r@ == partial_file_name(db_name@),
{
    proof {
        reveal_strlit(".db");
        reveal_strlit(".dbpart");
        reveal_strlit("");
        assert(""@ =~= Seq::<char>::empty());
    }
    let a = replace(db_name, ".db", "");
    let b = replace(a.as_str(), ".dbpart", "");
    let mut out = b;
    out.append(".dbpart");
    out
}

fn partial_statement(db_name: &str, sql: &str, config: &DbiConfigSqlite) -> (r: DbStatement)
    ensures
        r@ == partial_stmt(*config, db_name@, sql@, Seq::empty()),
{
    let file = partial_db_file_name(db_name);
    plain_statement(config.root_folder.as_str(), file.as_str(), sql)
}

/// The statement that counts the roles named `role_name`.
pub fn has_role_name(role_name: &str, config: &DbiConfigSqlite) -> (r: DbStatement)
    ensures
        r@ == rcd_stmt(*config, GET_ROLE@, seq![(":rolename"@, SqlValueView::Text(role_name@))]),
{
    let st = rcd_statement(GET_ROLE, config);
    with_param(st, text_param(":rolename", role_name))
}

/// The statement that adds `login` to the role `role_name`.
pub fn add_login_to_role(login: &str, role_name: &str, config: &DbiConfigSqlite) -> (r: DbStatement)
    ensures
        r@ == rcd_stmt(
            *config,
            ADD_USER_ROLE@,
            seq![(":username"@, SqlValueView::Text(login@)), (":rolename"@, SqlValueView::Text(role_name@))],
        ),
{
    let st = rcd_statement(ADD_USER_ROLE, config);
    let st = with_param(st, text_param(":username", login));
    let r = with_param(st, text_param(":rolename", role_name));
    assert(r@.params =~= seq![(":username"@, SqlValueView::Text(login@)), (":rolename"@, SqlValueView::Text(role_name@))]);
    r
}

/// The statement that counts the memberships of `login` in `role_name`.
pub fn login_is_in_role(login: &str, role_name: &str, config: &DbiConfigSqlite) -> (r: DbStatement)
    ensures
        r@ == rcd_stmt(
            *config,
            GET_USER_ROLE@,
            seq![(":username"@, SqlValueView::Text(login@)), (":rolename"@, SqlValueView::Text(role_name@))],
        ),
{
    let st = rcd_statement(GET_USER_ROLE, config);
    let st = with_param(st, text_param(":username", login));
    let r = with_param(st, text_param(":rolename", role_name));
    assert(r@.params =~= seq![(":username"@, SqlValueView::Text(login@)), (":rolename"@, SqlValueView::Text(role_name@))]);
    r
}

/// The statement that saves the login `login` with the hash of its password.
pub fn create_login(login: &str, pw_hash: Vec<u8>, config: &DbiConfigSqlite) -> (r: DbStatement)
    ensures
        r@ == rcd_stmt(
            *config,
            ADD_USER@,
            seq![(":username"@, SqlValueView::Text(login@)), (":hash"@, SqlValueView::Blob(pw_hash@))],
        ),
{
    let st = rcd_statement(ADD_USER, config);
    let st = with_param(st, text_param(":username", login));
    let ghost h = pw_hash@;
    let r = with_param(st, blob_param(":hash", pw_hash));
    assert(r@.params =~= seq![(":username"@, SqlValueView::Text(login@)), (":hash"@, SqlValueView::Blob(h))]);
    r
}

/// The statement that counts the logins named `login`.
pub fn has_login(login: &str, config: &DbiConfigSqlite) -> (r: DbStatement)
    ensures
        r@ == rcd_stmt(*config, HAS_LOGIN@, seq![(":username"@, SqlValueView::Text(login@))]),
{
    let st = rcd_statement(HAS_LOGIN, config);
    with_param(st, text_param(":username", login))
}

/// The statement that counts the rows of the host information.
pub fn if_host_info_exists(config: &DbiConfigSqlite) -> (r: DbStatement)
    ensures
        r@ == rcd_stmt(*config, HOST_INFO_COUNT@, Seq::empty()),
{
    rcd_statement(HOST_INFO_COUNT, config)
}

/// The statement that counts the rows of the host information.
pub fn if_rcd_host_info_exists(config: &DbiConfigSqlite) -> (r: DbStatement)
    ensures
        r@ == rcd_stmt(*config, HOST_INFO_COUNT@, Seq::empty()),
{
    if_host_info_exists(config)
}

/// The statement that counts the tables named `table_name` in `db_name`.
pub fn has_table_client_service(db_name: &str, table_name: &str, config: &DbiConfigSqlite) -> (r:
    DbStatement)
    ensures
        r@ == host_stmt(*config, db_name@, for_table(HAS_TABLE@, table_name@), Seq::empty()),
{
    table_statement(db_name, HAS_TABLE, table_name, config)
}

/// The statement that runs the write `cmd` against the user database.
pub fn execute_write_on_connection(db_name: &str, cmd: &str, config: &DbiConfigSqlite) -> (r:
    DbStatement)
    ensures
        r@ == host_stmt(*config, db_name@, cmd@, Seq::empty()),
{
    host_statement(db_name, cmd, config)
}

/// The statement that runs the write `cmd` against the user database.
pub fn execute_write_on_connection_at_host(db_name: &str, cmd: &str, config: &DbiConfigSqlite) -> (r:
    DbStatement)
    ensures
        r@ == host_stmt(*config, db_name@, cmd@, Seq::empty()),
{
    host_statement(db_name, cmd, config)
}

/// The statement that runs the write `cmd` against the partial database.
pub fn execute_write_on_connection_at_participant(
    db_name: &str,
    cmd: &str,
    config: &DbiConfigSqlite,
) -> (r: DbStatement)
    ensures
        r@ == partial_stmt(*config, db_name@, cmd@, Seq::empty()),
{
    partial_statement(db_name, cmd, config)
}

/// The statement that counts the participants with alias `alias`.
pub fn has_participant(db_name: &str, alias: &str, config: &DbiConfigSqlite) -> (r: DbStatement)
    ensures
        r@ == host_stmt(*config, db_name@, spec_replace(PARTICIPANT_COUNT@, ":alias"@, alias@), Seq::empty()),
{
    proof {
        reveal_strlit(":alias");
    }
    let cmd = replace(PARTICIPANT_COUNT, ":alias", alias);
    host_statement(db_name, cmd.as_str(), config)
}

/// The statement that reads the participant with alias `alias`.
pub fn get_participant_by_alias(db_name: &str, alias: &str, config: &DbiConfigSqlite) -> (r:
    DbStatement)
    ensures
        r@ == host_stmt(*config, db_name@, GET_PARTICIPANT_BY_ALIAS@, seq![(":alias"@, SqlValueView::Text(alias@))]),
{
    let st = host_statement(db_name, GET_PARTICIPANT_BY_ALIAS, config);
    with_param(st, text_param(":alias", alias))
}

/// A row of COOP_PARTICIPANT as the read by alias returns it: internal id,
/// alias, IPv4 and IPv6 addresses, port, contract status, accepted contract
/// version, token and participant id.
pub type ParticipantRow = (String, String, String, String, u32, u32, String, Vec<u8>, String);

/// A row that stands for a participant: its three identifiers are GUIDs
/// and its contract status is at most 4.
pub open spec fn participant_row_readable(row: ParticipantRow) -> bool {
    is_guid_pattern(row.0@) && is_guid_pattern(row.6@) && is_guid_pattern(row.8@) && row.5 <= 4
}

/// `p` is the participant that the row `row` stands for: its fields in
/// order, the identifiers with their letters made uppercase.
pub open spec fn participant_of_row(row: ParticipantRow, p: CoopDatabaseParticipant) -> bool {
    &&& p.internal_id@ == upper_guid(row.0@)
    &&& p.alias@ == row.1@
    &&& p.ip4addr@ == row.2@
    &&& p.ip6addr@ == row.3@
    &&& p.db_port == row.4
    &&& p.contract_status.code() == row.5
    &&& p.accepted_contract_version@ == upper_guid(row.6@)
    &&& p.token@ == row.7@
    &&& p.id@ == upper_guid(row.8@)
}

/// Reads the participant with alias `alias`: first the read by alias (its
/// rows are then `rows`, as many as the outcome says), then the participant
/// of the first row. A read that finds no participant, or a row that stands
/// for none, is not taken: the lookup needs every row read to stand for a
/// participant and at least one row.
pub fn read_participant_by_alias(
    db_name: &str,
    alias: &str,
    config: &DbiConfigSqlite,
    rows: &Vec<ParticipantRow>,
    answers: &Vec<u64>,
) -> (r: DbStep<CoopDatabaseParticipant>)
    requires
        answers@.len() > 0 ==> rows@.len() > 0 && forall|i: int|
            0 <= i < rows@.len() ==> participant_row_readable(#[trigger] rows@[i]),
    ensures
        answers@.len() == 0 ==> (r matches DbStep::Read(st) && st@ == host_stmt(
            *config,
            db_name@,
            GET_PARTICIPANT_BY_ALIAS@,
            seq![(":alias"@, SqlValueView::Text(alias@))],
        )),
        answers@.len() > 0 ==> (r matches DbStep::Done(p) && participant_of_row(rows@[0], p)),
{
    if answers.len() == 0 {
        return DbStep::Read(get_participant_by_alias(db_name, alias, config));
    }
    let row = &rows[0];
    assert(participant_row_readable(rows@[0]));
    let token = row.7.clone();
    assert(token@ =~= row.7@);
    match participant_from_row(
        row.0.as_str(),
        row.1.clone(),
        row.2.clone(),
        row.3.clone(),
        row.4,
        row.5,
        row.6.as_str(),
        token,
        row.8.as_str(),
    ) {
        Some(p) => DbStep::Done(p),
        None => {
            assert(false);
            DbStep::Read(get_participant_by_alias(db_name, alias, config))
        },
    }
}

/// The statement that reads row `row_id` of a table of the partial database.
pub fn get_row_from_partial_database(
    db_name: &str,
    table_name: &str,
    row_id: u32,
    config: &DbiConfigSqlite,
) -> (r: DbStatement)
    ensures
        r@ == partial_stmt(
            *config,
            db_name@,
            spec_replace(for_table(GET_ROW@, table_name@), ":rid"@, decimal(row_id as nat)),
            Seq::empty(),
        ),
{
    proof {
        reveal_strlit(":table_name");
        reveal_strlit(":rid");
    }
    let cmd = replace(GET_ROW, ":table_name", table_name);
    let rid = u32_to_text(row_id);
    let cmd = replace(cmd.as_str(), ":rid", rid.as_str());
    partial_statement(db_name, cmd.as_str(), config)
}

/// The statement that reads the row id of the rows of a table of the
/// partial database that meet `where_clause`.
pub fn read_row_id_from_part_db(
    db_name: &str,
    table_name: &str,
    where_clause: &str,
    config: &DbiConfigSqlite,
) -> (r: DbStatement)
    ensures
        r@ == partial_stmt(
            *config,
            db_name@,
            spec_replace(for_table(READ_ROW_ID@, table_name@), ":where_clause"@, where_clause@),
            Seq::empty(),
        ),
{
    proof {
        reveal_strlit(":table_name");
        reveal_strlit(":where_clause");
    }
    let cmd = replace(READ_ROW_ID, ":table_name", table_name);
    let cmd = replace(cmd.as_str(), ":where_clause", where_clause);
    partial_statement(db_name, cmd.as_str(), config)
}

/// The message of a policy lookup on a missing table.
pub open spec fn table_not_found_message(table: Seq<char>, db: Seq<char>) -> Seq<char> {
    "table "@ + table + " not found in db "@ + db
}

/// The steps of looking up the logical storage policy of a table, given the
/// outcomes `answers` of the steps taken so far: count the tables of that
/// name (none: the table is not found); count its policy records (none: no
/// policy is set); read its policy code.
pub open spec fn policy_lookup_spec(
    config: DbiConfigSqlite,
    db: Seq<char>,
    table: Seq<char>,
    answers: Seq<u64>,
    r: DbStep<Result<LogicalStoragePolicy, RcdDbError>>,
) -> bool {
    if answers.len() == 0 {
        r matches DbStep::Query(st) && st@ == host_stmt(config, db, for_table(HAS_TABLE@, table), Seq::empty())
    } else if answers[0] == 0 {
        r matches DbStep::Done(Err(RcdDbError::TableNotFound(m))) && m@ == table_not_found_message(table, db)
    } else if answers.len() == 1 {
        r matches DbStep::Query(st) && st@ == host_stmt(
            config,
            db,
            for_table(REMOTES_COUNT_FOR_TABLE@, table),
            Seq::empty(),
        )
    } else if answers[1] == 0 {
        r matches DbStep::Done(Ok(p)) && p == LogicalStoragePolicy::NoPolicy
    } else if answers.len() == 2 {
        r matches DbStep::Query(st) && st@ == host_stmt(
            config,
            db,
            for_table(REMOTES_POLICY_FOR_TABLE@, table),
            Seq::empty(),
        )
    } else {
        r matches DbStep::Done(Ok(p)) && p.code() == answers[2]
    }
}

/// Returns the logical storage policy of a table: an error if the table is
/// not in the database, no policy if none was recorded for it, and the
/// recorded policy otherwise. Handed the outcomes of the steps taken so
/// far, it gives the next step (see `policy_lookup_spec`). A recorded code
/// above 4 names no policy and is refused.
pub fn get_logical_storage_policy(
    db_name: &str,
    table_name: &str,
    config: &DbiConfigSqlite,
    answers: &Vec<u64>,
) -> (r: DbStep<Result<LogicalStoragePolicy, RcdDbError>>)
    requires
        answers@.len() >= 3 ==> answers@[2] <= 4,
    ensures
        policy_lookup_spec(*config, db_name@, table_name@, answers@, r),
{
    if answers.len() == 0 {
        return DbStep::Query(table_statement(db_name, HAS_TABLE, table_name, config));
    }
    if answers[0] == 0 {
        let mut m = String::from_str("table ");
        m.append(table_name);
        m.append(" not found in db ");
        m.append(db_name);
        return DbStep::Done(Err(RcdDbError::TableNotFound(m)));
    }
    if answers.len() == 1 {
        return DbStep::Query(table_statement(db_name, REMOTES_COUNT_FOR_TABLE, table_name, config));
    }
    if answers[1] == 0 {
        return DbStep::Done(Ok(LogicalStoragePolicy::NoPolicy));
    }
    if answers.len() == 2 {
        return DbStep::Query(table_statement(db_name, REMOTES_POLICY_FOR_TABLE, table_name, config));
    }
    let code = answers[2];
    DbStep::Done(Ok(LogicalStoragePolicy::from_i64(code as i64)))
}

/// The tables, among `names`, whose policy is cooperative, read in order
/// and up to the first table whose lookup failed.
pub open spec fn cooperative_prefix(
    names: Seq<Seq<char>>,
    policies: Seq<Result<LogicalStoragePolicy, RcdDbError>>,
) -> Seq<Seq<char>>
    decreases names.len(),
{
    if names.len() == 0 || policies.len() == 0 {
        Seq::empty()
    } else {
        match policies[0] {
            Err(_) => Seq::empty(),
            Ok(p) => (if p.is_cooperative() {
                seq![names[0]]
            } else {
                Seq::empty()
            }) + cooperative_prefix(names.drop_first(), policies.drop_first()),
        }
    }
}

/// Whether a table with a cooperative policy comes, among `names`, before
/// the first table whose lookup failed.
pub open spec fn has_cooperative_prefix(
    names: Seq<Seq<char>>,
    policies: Seq<Result<LogicalStoragePolicy, RcdDbError>>,
) -> bool {
    cooperative_prefix(names, policies).len() > 0
}

/// The tables among `names` whose policy (the lookup of the same position
/// in `policies`) is Mirror, ParticpantOwned or Shared, stopping at the
/// first lookup that failed.
pub fn cooperative_tables(names: &Vec<String>, policies: &Vec<Result<LogicalStoragePolicy, RcdDbError>>) -> (r:
    Vec<String>)
    requires
        names@.len() == policies@.len(),
    ensures
        texts(r@) == cooperative_prefix(texts(names@), policies@),
{
    let ghost ns = texts(names@);
    let mut out: Vec<String> = Vec::new();
    let mut k: usize = 0;
    assert(ns.skip(0) =~= ns);
    assert(policies@.skip(0) =~= policies@);
    assert(texts(out@) =~= Seq::<Seq<char>>::empty());
    while k < names.len()
        invariant
            ns == texts(names@),
            names@.len() == policies@.len(),
            k <= names.len(),
            texts(out@) + cooperative_prefix(ns.skip(k as int), policies@.skip(k as int))
                == cooperative_prefix(ns, policies@),
        decreases names.len() - k,
    {
        let ghost before = texts(out@);
        let ghost nsk = ns.skip(k as int);
        let ghost psk = policies@.skip(k as int);
        assert(nsk.drop_first() =~= ns.skip(k + 1));
        assert(psk.drop_first() =~= policies@.skip(k + 1));
        assert(nsk[0] == names@[k as int]@);
        assert(psk[0] == policies@[k as int]);
        match &policies[k] {
            Err(_) => {
                assert(texts(out@) + cooperative_prefix(nsk, psk) =~= texts(out@));
                return out;
            },
            Ok(p) => {
                if LogicalStoragePolicy::is_cooperative_policy(*p) {
                    out.push(String::from_str(names[k].as_str()));
                    assert(texts(out@) =~= before + seq![nsk[0]]);
                } else {
                    assert(texts(out@) =~= before + Seq::<Seq<char>>::empty());
                }
            },
        }
        k = k + 1;
    }
    assert(ns.skip(k as int).len() == 0);
    assert(texts(out@) + cooperative_prefix(ns.skip(k as int), policies@.skip(k as int)) =~= texts(
        out@,
    ));
    out
}

/// The cooperative tables that the statement `cmd` names: its tables whose
/// policy, looked up in `policies` at the same position, is cooperative, up
/// to the first failed lookup.
pub fn get_cooperative_tables(
    db_name: &str,
    cmd: &str,
    config: &DbiConfigSqlite,
    policies: &Vec<Result<LogicalStoragePolicy, RcdDbError>>,
) -> (r: Vec<String>)
    requires
        policies@.len() == table_names_of(cmd@).len(),
    ensures
        texts(r@) == cooperative_prefix(table_names_of(cmd@), policies@),
{
    let names = get_table_names(cmd, DatabaseType::Sqlite);
    cooperative_tables(&names, policies)
}

/// Whether the statement `cmd` names a cooperative table before the first
/// table whose policy lookup failed.
pub fn has_cooperative_tables(
    db_name: &str,
    cmd: &str,
    config: &DbiConfigSqlite,
    policies: &Vec<Result<LogicalStoragePolicy, RcdDbError>>,
) -> (r: bool)
    requires
        policies@.len() == table_names_of(cmd@).len(),
    ensures
        r == has_cooperative_prefix(table_names_of(cmd@), policies@),
{
    let found = get_cooperative_tables(db_name, cmd, config, policies);
    found.len() > 0
}

/// Whether a statement touches cooperative tables; not yet decided by
/// reading the statement, so always false.
pub fn has_cooperative_tables_mock(db_name: &str, cwd: &str, cmd: &str) -> (r: bool)
    ensures
        !r,
{
    false
}

/// The list of tables without a policy, each written "table NAME, ".
pub open spec fn missing_policies(policies: Seq<(String, LogicalStoragePolicy)>) -> Seq<char>
    decreases policies.len(),
{
    if policies.len() == 0 {
        Seq::empty()
    } else {
        let last = policies.last();
        missing_policies(policies.drop_last()) + (if last.1 == LogicalStoragePolicy::NoPolicy {
            "table "@ + last.0@ + ", "@
        } else {
            Seq::empty()
        })
    }
}

/// Some table has no policy.
pub open spec fn some_policy_missing(policies: Seq<(String, LogicalStoragePolicy)>) -> bool {
    exists|i: int| 0 <= i < policies.len() && policies[i].1 == LogicalStoragePolicy::NoPolicy
}

/// A contract is refused, naming the tables without a policy, exactly when
/// some user table has none; otherwise it may be generated.
pub open spec fn contract_policy_check(
    policies: Seq<(String, LogicalStoragePolicy)>,
    r: Result<bool, RcdGenerateContractError>,
) -> bool {
    if some_policy_missing(policies) {
        r matches Err(RcdGenerateContractError::NotAllTablesSet(m)) && m@ == "policy not set for "@
            + missing_policies(policies)
    } else {
        r matches Ok(b) && b
    }
}

/// Checks, before a contract is generated for a database, that every user
/// table (with its policy in `policies`) has a logical storage policy; if
/// any has none, the contract is refused with the list of those tables.
pub fn check_contract_policies(
    db_name: &str,
    policies: &Vec<(String, LogicalStoragePolicy)>,
    config: &DbiConfigSqlite,
) -> (r: Result<bool, RcdGenerateContractError>)
    ensures
        contract_policy_check(policies@, r),
{
    let mut message = String::from_str("policy not set for ");
    let mut missing = false;
    let mut k: usize = 0;
    while k < policies.len()
        invariant
            k <= policies@.len(),
            message@ == "policy not set for "@ + missing_policies(policies@.subrange(0, k as int)),
            missing == some_policy_missing(policies@.subrange(0, k as int)),
        decreases policies.len() - k,
    {
        let ghost pre = policies@.subrange(0, k as int);
        let ghost post = policies@.subrange(0, k + 1);
        assert(post.drop_last() =~= pre);
        assert(post.last() == policies@[k as int]);
        let item = &policies[k];
        if item.1 == LogicalStoragePolicy::NoPolicy {
            message.append("table ");
            message.append(item.0.as_str());
            message.append(", ");
            missing = true;
            assert(post[k as int].1 == LogicalStoragePolicy::NoPolicy);
        } else {
            assert(message@ =~= "policy not set for "@ + missing_policies(post));
            assert(!some_policy_missing(pre) ==> !some_policy_missing(post)) by {
                if some_policy_missing(post) {
                    let i = choose|i: int|
                        0 <= i < post.len() && post[i].1 == LogicalStoragePolicy::NoPolicy;
                    assert(pre[i] == post[i]);
                }
            }
            assert(some_policy_missing(pre) ==> some_policy_missing(post)) by {
                if some_policy_missing(pre) {
                    let i = choose|i: int|
                        0 <= i < pre.len() && pre[i].1 == LogicalStoragePolicy::NoPolicy;
                    assert(pre[i] == post[i]);
                }
            }
        }
        if missing {
            assert(some_policy_missing(post)) by {
                if item.1 == LogicalStoragePolicy::NoPolicy {
                    assert(post[k as int].1 == LogicalStoragePolicy::NoPolicy);
                } else {
                }
            }
        }
        k = k + 1;
    }
    assert(policies@.subrange(0, policies@.len() as int) =~= policies@);
    if missing {
        Err(RcdGenerateContractError::NotAllTablesSet(message))
    } else {
        Ok(true)
    }
}

/// The statements that enable cooperative features on a user database, in
/// order: the COOP_REMOTES, COOP_PARTICIPANT and COOP_DATABASE_CONTRACT
/// tables, then the COOP_DATA_HOST tables.
pub open spec fn coop_table_sql(k: int) -> Seq<char> {
    if k == 0 {
        CREATE_REMOTES_TABLE@
    } else if k == 1 {
        CREATE_PARTICIPANT_TABLE@
    } else if k == 2 {
        CREATE_COOP_CONTRACTS_TABLE@
    } else if k == 3 {
        CREATE_DATA_HOST_TABLE@
    } else if k == 4 {
        CREATE_DATA_HOST_TABLES_TABLE@
    } else if k == 5 {
        CREATE_DATA_HOST_TABLES_COLUMNS_TABLE@
    } else {
        CREATE_DATA_REMOTES_TABLE@
    }
}

fn coop_table_statement(db_name: &str, k: usize, config: &DbiConfigSqlite) -> (r: DbStatement)
    requires
        k < 7,
    ensures
        r@ == host_stmt(*config, db_name@, coop_table_sql(k as int), Seq::empty()),
{
    let sql = if k == 0 {
        CREATE_REMOTES_TABLE
    } else if k == 1 {
        CREATE_PARTICIPANT_TABLE
    } else if k == 2 {
        CREATE_COOP_CONTRACTS_TABLE
    } else if k == 3 {
        CREATE_DATA_HOST_TABLE
    } else if k == 4 {
        CREATE_DATA_HOST_TABLES_TABLE
    } else if k == 5 {
        CREATE_DATA_HOST_TABLES_COLUMNS_TABLE
    } else {
        CREATE_DATA_REMOTES_TABLE
    };
    host_statement(db_name, sql, config)
}

/// A statement that records a fresh identifier (36 characters) for the
/// user database `db`.
pub open spec fn is_database_id_insert(config: DbiConfigSqlite, db: Seq<char>, st: DbStatement) -> bool {
    exists|id: Seq<char>|
        id.len() == 36 && st@ == host_stmt(
            config,
            db,
            ADD_DATABASE_ID_TO_HOST@,
            seq![(":database_id"@, SqlValueView::Text(id)), (":database_name"@, SqlValueView::Text(db))],
        )
}

fn database_id_insert(db_name: &str, config: &DbiConfigSqlite) -> (r: DbStatement)
    ensures
        is_database_id_insert(*config, db_name@, r),
{
    let id = new_guid_text();
    let ghost idv = id@;
    let st = host_statement(db_name, ADD_DATABASE_ID_TO_HOST, config);
    let st = with_param(st, text_param(":database_id", id.as_str()));
    let r = with_param(st, text_param(":database_name", db_name));
    assert(r@.params =~= seq![
        (":database_id"@, SqlValueView::Text(idv)),
        (":database_name"@, SqlValueView::Text(db_name@)),
    ]);
    r
}

/// The steps of giving a user database its identifier, starting at outcome
/// `at`: count the identifiers recorded; if there are none, record a fresh
/// one; then finish with `done`.
pub open spec fn database_id_spec<T>(
    config: DbiConfigSqlite,
    db: Seq<char>,
    answers: Seq<u64>,
    at: int,
    done: T,
    r: DbStep<T>,
) -> bool {
    if answers.len() == at {
        r matches DbStep::Query(st) && st@ == host_stmt(config, db, GET_COUNT_FROM_DATA_HOST@, Seq::empty())
    } else if answers.len() == at + 1 && answers[at] == 0 {
        r matches DbStep::Execute(st) && is_database_id_insert(config, db, st)
    } else {
        r == DbStep::<T>::Done(done)
    }
}

/// The steps of enabling cooperative features on a user database: create
/// the seven COOP tables, then give the database its identifier if it has
/// none.
pub open spec fn enable_cooperative_features_spec(
    config: DbiConfigSqlite,
    db: Seq<char>,
    answers: Seq<u64>,
    r: DbStep<()>,
) -> bool {
    if answers.len() < 7 {
        r matches DbStep::Execute(st) && st@ == host_stmt(config, db, coop_table_sql(answers.len() as int), Seq::empty())
    } else {
        database_id_spec(config, db, answers, 7, (), r)
    }
}

/// Enables cooperative features on a user database: the next step, given
/// the outcomes of the steps taken so far (see
/// `enable_cooperative_features_spec`).
pub fn enable_coooperative_features(db_name: &str, config: &DbiConfigSqlite, answers: &Vec<u64>) -> (r:
    DbStep<()>)
    ensures
        enable_cooperative_features_spec(*config, db_name@, answers@, r),
{
    let n = answers.len();
    if n < 7 {
        return DbStep::Execute(coop_table_statement(db_name, n, config));
    }
    if n == 7 {
        return DbStep::Query(host_statement(db_name, GET_COUNT_FROM_DATA_HOST, config));
    }
    if n == 8 && answers[7] == 0 {
        return DbStep::Execute(database_id_insert(db_name, config));
    }
    DbStep::Done(())
}

/// The message of a policy change on a missing table.
pub open spec fn table_not_in_message(table: Seq<char>, db: Seq<char>) -> Seq<char> {
    "table "@ + table + " not in "@ + db
}

/// `sql` with `:table_name` replaced by `table`, then `:policy` by the code
/// of `policy`.
pub open spec fn policy_sql(sql: Seq<char>, table: Seq<char>, policy: LogicalStoragePolicy) -> Seq<char> {
    spec_replace(for_table(sql, table), ":policy"@, decimal(policy.code() as nat))
}

/// The steps of setting the logical storage policy of a table: count the
/// tables of that name (none: the table is not in the database); count its
/// policy records; change the record, or add one if there is none; then
/// give the database its identifier if it has none.
pub open spec fn set_policy_spec(
    config: DbiConfigSqlite,
    db: Seq<char>,
    table: Seq<char>,
    policy: LogicalStoragePolicy,
    answers: Seq<u64>,
    r: DbStep<Result<bool, RcdDbError>>,
) -> bool {
    if answers.len() == 0 {
        r matches DbStep::Query(st) && st@ == host_stmt(config, db, for_table(HAS_TABLE@, table), Seq::empty())
    } else if answers[0] == 0 {
        r matches DbStep::Done(Err(RcdDbError::TableNotFound(m))) && m@ == table_not_in_message(table, db)
    } else if answers.len() == 1 {
        r matches DbStep::Query(st) && st@ == host_stmt(config, db, for_table(REMOTES_COUNT_FOR_TABLE@, table), Seq::empty())
    } else if answers.len() == 2 {
        r matches DbStep::Execute(st) && st@ == host_stmt(
            config,
            db,
            policy_sql(if answers[1] > 0 { REMOTES_UPDATE_POLICY@ } else { REMOTES_INSERT_POLICY@ }, table, policy),
            Seq::empty(),
        )
    } else {
        &&& database_id_spec(config, db, answers, 3, Ok(true), r)
        &&& (r matches DbStep::Done(x) ==> x matches Ok(b) && b)
    }
}

/// Sets the logical storage policy of a table: an error if the table is not
/// in the database; otherwise the policy is recorded. The next step, given
/// the outcomes of the steps taken so far (see `set_policy_spec`).
pub fn set_logical_storage_policy(
    db_name: &str,
    table_name: &str,
    policy: LogicalStoragePolicy,
    config: &DbiConfigSqlite,
    answers: &Vec<u64>,
) -> (r: DbStep<Result<bool, RcdDbError>>)
    ensures
        set_policy_spec(*config, db_name@, table_name@, policy, answers@, r),
{
    let n = answers.len();
    if n == 0 {
        return DbStep::Query(table_statement(db_name, HAS_TABLE, table_name, config));
    }
    if answers[0] == 0 {
        let mut m = String::from_str("table ");
        m.append(table_name);
        m.append(" not in ");
        m.append(db_name);
        return DbStep::Done(Err(RcdDbError::TableNotFound(m)));
    }
    if n == 1 {
        return DbStep::Query(table_statement(db_name, REMOTES_COUNT_FOR_TABLE, table_name, config));
    }
    if n == 2 {
        proof {
            reveal_strlit(":table_name");
            reveal_strlit(":policy");
        }
        let template = if answers[1] > 0 {
            REMOTES_UPDATE_POLICY
        } else {
            REMOTES_INSERT_POLICY
        };
        let cmd = replace(template, ":table_name", table_name);
        let code = u32_to_text(LogicalStoragePolicy::to_u32(policy));
        let cmd = replace(cmd.as_str(), ":policy", code.as_str());
        return DbStep::Execute(host_statement(db_name, cmd.as_str(), config));
    }
    if n == 3 {
        return DbStep::Query(host_statement(db_name, GET_COUNT_FROM_DATA_HOST, config));
    }
    if n == 4 && answers[3] == 0 {
        return DbStep::Execute(database_id_insert(db_name, config));
    }
    DbStep::Done(Ok(true))
}

/// A new participant `alias` at `ip4addr` and `db_port`: a fresh internal
/// identifier (36 characters), no IPv6 address, the contract status
/// NotSent, no accepted contract version, no token and no participant
/// identifier.
pub open spec fn is_new_participant(
    p: CoopDatabaseParticipant,
    alias: Seq<char>,
    ip4addr: Seq<char>,
    db_port: u32,
) -> bool {
    &&& p.internal_id@.len() == 36
    &&& p.alias@ == alias
    &&& p.ip4addr@ == ip4addr
    &&& p.ip6addr@.len() == 0
    &&& p.db_port == db_port
    &&& p.contract_status == ContractStatus::NotSent
    &&& p.accepted_contract_version@ == EMPTY_GUID@
    &&& p.token@.len() == 0
    &&& p.id@ == EMPTY_GUID@
}

/// The steps of adding a participant: count the participants with its
/// alias; if there is one, it is not added (false); otherwise save a new
/// participant (see `participant::save_participant_spec`: count again, then
/// write) and finish with true.
pub open spec fn add_participant_spec(
    config: DbiConfigSqlite,
    db: Seq<char>,
    alias: Seq<char>,
    ip4addr: Seq<char>,
    db_port: u32,
    answers: Seq<u64>,
    r: DbStep<bool>,
) -> bool {
    if answers.len() == 0 {
        r matches DbStep::Query(st) && st@ == host_stmt(config, db, participant_count_sql(alias), Seq::empty())
    } else if answers[0] > 0 {
        r == DbStep::<bool>::Done(false)
    } else if answers.len() == 1 {
        r matches DbStep::Query(st) && st@ == host_stmt(config, db, participant_count_sql(alias), Seq::empty())
    } else if answers.len() == 2 {
        exists|p: CoopDatabaseParticipant|
            is_new_participant(p, alias, ip4addr, db_port) && (r matches DbStep::Execute(st) && st@ == (
            if answers[1] > 0 {
                host_stmt(config, db, UPDATE_PARTICIPANT@, update_params(p))
            } else {
                host_stmt(config, db, ADD_PARTICIPANT@, insert_params(p))
            }))
    } else {
        r == DbStep::<bool>::Done(true)
    }
}

/// Adds a participant to a user database unless one with the same alias is
/// there: the next step, given the outcomes of the steps taken so far (see
/// `add_participant_spec`).
pub fn add_participant(
    db_name: &str,
    alias: &str,
    ip4addr: &str,
    db_port: u32,
    config: &DbiConfigSqlite,
    answers: &Vec<u64>,
) -> (r: DbStep<bool>)
    ensures
        add_participant_spec(*config, db_name@, alias@, ip4addr@, db_port, answers@, r),
{
    let n = answers.len();
    if n == 0 {
        return DbStep::Query(participant_count(db_name, alias, config));
    }
    if answers[0] > 0 {
        return DbStep::Done(false);
    }
    if n == 1 {
        return DbStep::Query(participant_count(db_name, alias, config));
    }
    if n > 2 {
        return DbStep::Done(true);
    }
    let p = CoopDatabaseParticipant {
        internal_id: new_guid_text(),
        alias: String::from_str(alias),
        ip4addr: String::from_str(ip4addr),
        ip6addr: String::new(),
        db_port,
        contract_status: ContractStatus::NotSent,
        accepted_contract_version: String::from_str(EMPTY_GUID),
        token: Vec::new(),
        id: String::from_str(EMPTY_GUID),
    };
    let rest = vec![answers[1]];
    let step = save_participant(db_name, &p, config, &rest);
    assert(is_new_participant(p, alias@, ip4addr@, db_port));
    match step {
        DbStep::Execute(st) => DbStep::Execute(st),
        DbStep::Query(st) => DbStep::Query(st),
        DbStep::Read(st) => DbStep::Read(st),
        DbStep::Done(_) => DbStep::Done(true),
    }
}

/// The statement that reads the schema of a table of the partial database.
pub fn get_schema_of_table(db_name: &str, table_name: &str, config: &DbiConfigSqlite) -> (r: DbStatement)
    ensures
        r@ == partial_stmt(*config, db_name@, for_table(SCHEMA_OF_TABLE@, table_name@), Seq::empty()),
{
    proof {
        reveal_strlit(":table_name");
    }
    let cmd = replace(SCHEMA_OF_TABLE, ":table_name", table_name);
    partial_statement(db_name, cmd.as_str(), config)
}

/// The column list " NAME TYPE," repeated for each column, in order.
pub open spec fn column_list(cols: Seq<(String, String)>) -> Seq<char>
    decreases cols.len(),
{
    if cols.len() == 0 {
        Seq::empty()
    } else {
        column_list(cols.drop_last()) + " "@ + cols.last().0@ + " "@ + cols.last().1@ + ","@
    }
}

/// The columns of a table written "NAME TYPE, NAME TYPE, ..., NAME TYPE":
/// the column list without its leading space and its trailing comma. The
/// pairs are the name and the declared type of each column, in order, as
/// read by `get_schema_of_table`; a table without columns is refused.
pub fn get_table_col_names_with_data_type_as_string(cols: &Vec<(String, String)>) -> (r: String)
    requires
        cols@.len() > 0,
    ensures
        r@ == column_list(cols@).subrange(1, column_list(cols@).len() - 1),
{
    proof {
        reveal_strlit(" ");
        reveal_strlit(",");
    }
    let mut list = String::new();
    let mut k: usize = 0;
    while k < cols.len()
        invariant
            k <= cols@.len(),
            list@ == column_list(cols@.subrange(0, k as int)),
        decreases cols.len() - k,
    {
        let ghost pre = cols@.subrange(0, k as int);
        let ghost post = cols@.subrange(0, k + 1);
        assert(post.drop_last() =~= pre);
        list.append(" ");
        list.append(cols[k].0.as_str());
        list.append(" ");
        list.append(cols[k].1.as_str());
        list.append(",");
        k = k + 1;
    }
    assert(cols@.subrange(0, cols@.len() as int) =~= cols@);
    let n = list.as_str().unicode_len();
    assert(n >= 3);
    let inner = list.as_str().substring_char(1, n - 1);
    String::from_str(inner)
}

/// What a change of policy writes is read back by a lookup: the statement
/// that sets a table's policy writes the policy's code, and a lookup of an
/// existing table whose recorded code is that code gives the same policy.
pub proof fn law_policy_read_back(
    config: DbiConfigSqlite,
    db: Seq<char>,
    table: Seq<char>,
    policy: LogicalStoragePolicy,
    recorded: u64,
    set_step: DbStep<Result<bool, RcdDbError>>,
    get_step: DbStep<Result<LogicalStoragePolicy, RcdDbError>>,
)
    requires
        set_policy_spec(config, db, table, policy, seq![1u64, recorded], set_step),
        policy_lookup_spec(config, db, table, seq![1u64, 1u64, policy.code() as u64], get_step),
    ensures
        set_step matches DbStep::Execute(st) && st@.sql == policy_sql(
            if recorded > 0 {
                REMOTES_UPDATE_POLICY@
            } else {
                REMOTES_INSERT_POLICY@
            },
            table,
            policy,
        ),
        get_step matches DbStep::Done(x) && x matches Ok(p) && p == policy,
{
    let p = choose|p: LogicalStoragePolicy| get_step == DbStep::<Result<LogicalStoragePolicy, RcdDbError>>::Done(Ok(p));
    crate::rcd_enum::law_logical_storage_policy_codes(p, policy);
}

/// A participant whose alias is already recorded is not added again: the
/// operation ends with false and writes nothing.
pub proof fn law_duplicate_participant_refused(
    config: DbiConfigSqlite,
    db: Seq<char>,
    alias: Seq<char>,
    ip4addr: Seq<char>,
    db_port: u32,
    count: u64,
    r: DbStep<bool>,
)
    requires
        count > 0,
        add_participant_spec(config, db, alias, ip4addr, db_port, seq![count], r),
    ensures
        r == DbStep::<bool>::Done(false),
{
}

/// Every table kept as cooperative is one of the named tables, in the same
/// order, and its lookup found a cooperative policy.
pub proof fn law_cooperative_tables_are_cooperative(
    names: Seq<Seq<char>>,
    policies: Seq<Result<LogicalStoragePolicy, RcdDbError>>,
    k: int,
)
    requires
        names.len() == policies.len(),
        0 <= k < cooperative_prefix(names, policies).len(),
    ensures
        exists|i: int|
            0 <= i < names.len() && names[i] == cooperative_prefix(names, policies)[k] && (
            policies[i] matches Ok(p) && p.is_cooperative()),
    decreases names.len(),
{
    let c = cooperative_prefix(names, policies);
    match policies[0] {
        Err(_) => {},
        Ok(p) => {
            let rest = cooperative_prefix(names.drop_first(), policies.drop_first());
            let head: Seq<Seq<char>> = if p.is_cooperative() {
                seq![names[0]]
            } else {
                Seq::empty()
            };
            assert(c == head + rest);
            if k < head.len() {
                assert(c[k] == names[0]);
            } else {
                assert(c[k] == rest[k - head.len()]);
                law_cooperative_tables_are_cooperative(
                    names.drop_first(),
                    policies.drop_first(),
                    k - head.len(),
                );
                let i = choose|i: int|
                    0 <= i < names.drop_first().len() && names.drop_first()[i] == rest[k - head.len()] && (
                    policies.drop_first()[i] matches Ok(q) && q.is_cooperative());
                assert(names[i + 1] == names.drop_first()[i]);
                assert(policies[i + 1] == policies.drop_first()[i]);
            }
        },
    }
}

/// The statement that reads the table name and policy code of every table
/// with a recorded policy in the user database `db_name`.
pub fn remote_status_statement(db_name: &str, config: &DbiConfigSqlite) -> (r: DbStatement)
    ensures
        r@ == host_stmt(*config, db_name@, GET_LOGICAL_STORAGE_POLICY_TABLES@, Seq::empty()),
{
    host_statement(db_name, GET_LOGICAL_STORAGE_POLICY_TABLES, config)
}

/// The policy of each table read by `remote_status_statement` (its name
/// and its code), in order. A code above 4 names no policy and is refused.
pub fn get_remote_status_for_tables(rows: Vec<(String, i64)>) -> (r: Vec<(String, LogicalStoragePolicy)>)
    requires
        forall|i: int| 0 <= i < rows@.len() ==> 0 <= (#[trigger] rows@[i]).1 <= 4,
    ensures
        r@.len() == rows@.len(),
        forall|i: int|
            0 <= i < rows@.len() ==> (#[trigger] r@[i]).0 == rows@[i].0 && r@[i].1.code() == rows@[i].1,
{
    let mut out: Vec<(String, LogicalStoragePolicy)> = Vec::new();
    let mut rest = rows;
    let ghost all = rest@;
    let mut k: usize = 0;
    let n = rest.len();
    while k < n
        invariant
            n == all.len(),
            k <= n,
            rest@ == all,
            forall|i: int| 0 <= i < all.len() ==> 0 <= (#[trigger] all[i]).1 <= 4,
            out@.len() == k,
            forall|i: int| 0 <= i < k ==> (#[trigger] out@[i]).0 == all[i].0 && out@[i].1.code() == all[i].1,
        decreases n - k,
    {
        let name = rest[k].0.clone();
        let code = rest[k].1;
        assert(0 <= all[k as int].1 <= 4);
        out.push((name, LogicalStoragePolicy::from_i64(code)));
        k = k + 1;
    }
    out
}

/// The statement that runs the read `cmd` against the user database
/// `db_name`; its rows make a table (see
/// `read_result::execute_read_on_connection`).
pub fn execute_read(db_name: &str, cmd: &str, config: &DbiConfigSqlite) -> (r: DbStatement)
    ensures
        r@ == host_stmt(*config, db_name@, cmd@, Seq::empty()),
{
    host_statement(db_name, cmd, config)
}

/// The statement that runs the read `cmd` against the user database
/// `db_name`, as its host.
pub fn execute_read_at_host(db_name: &str, cmd: &str, config: &DbiConfigSqlite) -> (r: DbStatement)
    ensures
        r@ == host_stmt(*config, db_name@, cmd@, Seq::empty()),
{
    host_statement(db_name, cmd, config)
}

/// The statement that runs the read `cmd` against the partial database
/// held for `db_name`.
pub fn execute_read_at_participant(db_name: &str, cmd: &str, config: &DbiConfigSqlite) -> (r: DbStatement)
    ensures
        r@ == partial_stmt(*config, db_name@, cmd@, Seq::empty()),
{
    partial_statement(db_name, cmd, config)
}

/// The statement that lists the column names of a table.
pub const TABLE_COL_NAMES: &'static str = "select NAME from pragma_table_info(\":table_name\") as tblInfo;";

/// The statement text that lists the column names of `table_name`.
pub fn get_table_col_names(table_name: &str) -> (r: String)
    ensures
        r@ == for_table(TABLE_COL_NAMES@, table_name@),
{
    proof {
        reveal_strlit(":table_name");
    }
    replace(TABLE_COL_NAMES, ":table_name", table_name)
}

/// The statement that counts the held contracts with id `:cid`.
pub const CONTRACT_COUNT_BY_ID: &'static str = "SELECT COUNT(*) TOTALCOUNT FROM CDS_CONTRACTS WHERE CONTRACT_ID = ':cid'";

/// The statement that counts, in rcd's own database, the held contracts
/// with id `contract_id`; a contract is held when the count is above zero.
pub fn has_contract(contract_id: &str, config: &DbiConfigSqlite) -> (r: DbStatement)
    ensures
        r@ == rcd_stmt(*config, spec_replace(CONTRACT_COUNT_BY_ID@, ":cid"@, contract_id@), Seq::empty()),
{
    proof {
        reveal_strlit(":cid");
    }
    let cmd = replace(CONTRACT_COUNT_BY_ID, ":cid", contract_id);
    rcd_statement(cmd.as_str(), config)
}

/// Gives the user database `db_name` its identifier if it has none: the
/// next step, given the outcomes of the steps taken so far (see
/// `database_id_spec`).
pub fn populate_database_id(db_name: &str, config: &DbiConfigSqlite, answers: &Vec<u64>) -> (r: DbStep<()>)
    ensures
        database_id_spec(*config, db_name@, answers@, 0, (), r),
{
    if answers.len() == 0 {
        return DbStep::Query(host_statement(db_name, GET_COUNT_FROM_DATA_HOST, config));
    }
    if answers.len() == 1 && answers[0] == 0 {
        return DbStep::Execute(database_id_insert(db_name, config));
    }
    DbStep::Done(())
}

/// Each user table with its policy, in order: the names listed by the
/// statement that lists them, each with the policy its lookup found. A
/// failed lookup is refused.
pub fn get_logical_storage_policy_for_all_user_tables(
    names: Vec<String>,
    lookups: Vec<Result<LogicalStoragePolicy, RcdDbError>>,
) -> (r: Vec<(String, LogicalStoragePolicy)>)
    requires
        names@.len() == lookups@.len(),
        forall|i: int| 0 <= i < lookups@.len() ==> (#[trigger] lookups@[i]) is Ok,
    ensures
        r@.len() == names@.len(),
        forall|i: int|
            0 <= i < r@.len() ==> (#[trigger] r@[i]).0 == names@[i] && lookups@[i] == Result::<
                LogicalStoragePolicy,
                RcdDbError,
            >::Ok(r@[i].1),
{
    let mut out: Vec<(String, LogicalStoragePolicy)> = Vec::new();
    let mut k: usize = 0;
    while k < names.len()
        invariant
            names@.len() == lookups@.len(),
            forall|i: int| 0 <= i < lookups@.len() ==> (#[trigger] lookups@[i]) is Ok,
            k <= names@.len(),
            out@.len() == k,
            forall|i: int|
                0 <= i < k ==> (#[trigger] out@[i]).0 == names@[i] && lookups@[i] == Result::<
                    LogicalStoragePolicy,
                    RcdDbError,
                >::Ok(out@[i].1),
        decreases names.len() - k,
    {
        let p = match &lookups[k] {
            Ok(p) => *p,
            Err(_) => LogicalStoragePolicy::NoPolicy,
        };
        out.push((names[k].clone(), p));
        k = k + 1;
    }
    out
}

/// A database is given an identifier only where it has none: once a count
/// finds one, nothing is written and the operation is done.
pub proof fn law_database_id_only_when_missing(
    config: DbiConfigSqlite,
    db: Seq<char>,
    count: u64,
    r: DbStep<()>,
)
    requires
        count > 0,
        database_id_spec(config, db, seq![count], 0, (), r),
    ensures
        r == DbStep::<()>::Done(()),
{
}

} // verus!
