//! Database contracts kept by a host for a user database: their record in
//! COOP_DATABASE_CONTRACT, how one is saved, retired and replaced when a
//! new contract is generated.
//!
//! Identifiers and dates are held as the text they are written to the
//! store with: an identifier as the 36 characters of a GUID, a date as the
//! text of a UTC time.
use vstd::prelude::*;

use crate::cdata::{Contract, DatabaseSchema, Host};
use crate::guid::{canonical_guid, is_guid_pattern, new_guid_text, parse_utc_text, upper_guid, utc_now_text, utc_text_of};
use crate::table::{Row as TableRow, Table, Value};
use crate::rcd_db::HostInfo;
use crate::rcd_enum::{
    ContractStatus, LogicalStoragePolicy, RcdGenerateContractError, RemoteDeleteBehavior,
};
use crate::sqlite_store::{check_contract_policies, contract_policy_check, some_policy_missing};
use crate::dbi::DbiConfigSqlite;
use crate::sql_text::CONTRACT_COUNT;
use crate::statement::{plain_statement, stmt, DbStatement, DbStatementView, DbStep};
use crate::text::{decimal, parse_u32, replace, spec_replace, text_eq, u32_text_value, u32_to_text};

verus! {

/// The statement that counts the contracts with a version id.
pub const CONTRACT_COUNT_BY_VERSION: &'static str = "SELECT COUNT(*) TOTALCOUNT FROM COOP_DATABASE_CONTRACT WHERE VERSION_ID = ':vid'";

/// The statement that reads every contract of a database.
pub const ALL_CONTRACTS: &'static str = "SELECT 
        CONTRACT_ID,
        GENERATED_DATE_UTC,
        DESCRIPTION,
        RETIRED_DATE_UTC,
        VERSION_ID,
        REMOTE_DELETE_BEHAVIOR
    FROM
        COOP_DATABASE_CONTRACT
        ;
        ";

/// The statement that rewrites a recorded contract that is retired.
pub const UPDATE_RETIRED_CONTRACT: &'static str = "
            UPDATE COOP_DATABASE_CONTRACT 
            SET 
                CONTRACT_ID = ':cid',
                GENERATED_DATE_UTC = ':gen_date',
                DESCRIPTION = ':desc',
                RETIRED_DATE_UTC = ':ret_date',
                REMOTE_DELETE_BEHAVIOR = ':remote_behavior'
            WHERE
                VERSION_ID = ':vid'";

/// The statement that rewrites a recorded contract that is active.
pub const UPDATE_CONTRACT: &'static str = "
            UPDATE COOP_DATABASE_CONTRACT 
            SET 
                CONTRACT_ID = ':cid',
                GENERATED_DATE_UTC = ':gen_date',
                DESCRIPTION = ':desc',
                REMOTE_DELETE_BEHAVIOR = ':remote_behavior'
            WHERE
                VERSION_ID = ':vid'";

/// The statement that records a new contract that is retired.
pub const INSERT_RETIRED_CONTRACT: &'static str = "
            INSERT INTO COOP_DATABASE_CONTRACT
            (
                CONTRACT_ID,
                GENERATED_DATE_UTC,
                DESCRIPTION,
                RETIRED_DATE_UTC,
                VERSION_ID,
                REMOTE_DELETE_BEHAVIOR
            )
            VALUES
            (
                ':cid',
                ':gen_date',
                ':desc',
                ':ret_date',
                ':vid',
                ':remote_behavior'
            );
            ";

/// The statement that records a new contract that is active.
pub const INSERT_CONTRACT: &'static str = "
            INSERT INTO COOP_DATABASE_CONTRACT
            (
                CONTRACT_ID,
                GENERATED_DATE_UTC,
                DESCRIPTION,
                VERSION_ID,
                REMOTE_DELETE_BEHAVIOR
            )
            VALUES
            (
                ':cid',
                ':gen_date',
                ':desc',
                ':vid',
                ':remote_behavior'
            );
            ";

/// The statement that retires a contract at a date.
pub const RETIRE_CONTRACT: &'static str = "UPDATE COOP_DATABASE_CONTRACT SET RETIRED_DATE_UTC = ':retire_date' WHERE VERSION_ID = ':vid'";

/// A contract of a user database, as its host records it.
#[derive(Debug)]
pub struct CoopDatabaseContract {
    pub contract_id: String,
    pub generated_date: String,
    pub description: String,
    pub retired_date: Option<String>,
    pub version_id: String,
    pub remote_delete_behavior: u32,
}

/// The mathematical value of a contract.
pub struct ContractView {
    pub contract_id: Seq<char>,
    pub generated_date: Seq<char>,
    pub description: Seq<char>,
    pub retired_date: Option<Seq<char>>,
    pub version_id: Seq<char>,
    pub remote_delete_behavior: u32,
}

impl View for CoopDatabaseContract {
    type V = ContractView;

    open spec fn view(&self) -> ContractView {
        ContractView {
            contract_id: self.contract_id@,
            generated_date: self.generated_date@,
            description: self.description@,
            retired_date: match self.retired_date {
                Some(d) => Some(d@),
                None => None,
            },
            version_id: self.version_id@,
            remote_delete_behavior: self.remote_delete_behavior,
        }
    }
}

impl CoopDatabaseContract {
    /// Whether the contract has a retired date.
    pub fn is_retired(&self) -> (r: bool)
        ensures
            r == (self.retired_date is Some),
    {
        self.retired_date.is_some()
    }

    /// The contract as it is sent to a participant: with the host that
    /// offers it (its identity from `host_info`, and the addresses and port
    /// given), the schema of the database it covers, and its status.
    pub fn to_cdata_contract(
        &self,
        host_info: &HostInfo,
        host_ip4_addr: &str,
        host_ip6_addr: &str,
        host_db_port: u32,
        contract_status: ContractStatus,
        db_schema: DatabaseSchema,
    ) -> (r: Contract)
        ensures
            r.contract_guid@ == self.contract_id@,
            r.description@ == self.description@,
            r.contract_version@ == self.version_id@,
            r.status == contract_status.code(),
            r.schema == Some(db_schema),
            r.host_info matches Some(h) && {
                &&& h.host_guid@ == host_info.id@
                &&& h.host_name@ == host_info.name@
                &&& h.ip4_address@ == host_ip4_addr@
                &&& h.ip6_address@ == host_ip6_addr@
                &&& h.database_port_number == host_db_port
                &&& h.token@ == host_info.token@
            },
    {
        let host = Host {
            host_guid: host_info.id.clone(),
            host_name: host_info.name.clone(),
            ip4_address: String::from_str(host_ip4_addr),
            ip6_address: String::from_str(host_ip6_addr),
            database_port_number: host_db_port,
            token: host_info.token.clone(),
        };
        Contract {
            contract_guid: self.contract_id.clone(),
            description: self.description.clone(),
            schema: Some(db_schema),
            contract_version: self.version_id.clone(),
            host_info: Some(host),
            status: ContractStatus::to_u32(contract_status),
        }
    }

    /// A contract with the same fields.
    pub fn copy(&self) -> (r: CoopDatabaseContract)
        ensures
            r@ == self@,
    {
        CoopDatabaseContract {
            contract_id: self.contract_id.clone(),
            generated_date: self.generated_date.clone(),
            description: self.description.clone(),
            retired_date: match &self.retired_date {
                Some(d) => Some(d.clone()),
                None => None,
            },
            version_id: self.version_id.clone(),
            remote_delete_behavior: self.remote_delete_behavior,
        }
    }
}

/// `template` with the contract's fields put in, in this order: `:cid`,
/// `:gen_date`, `:desc`, `:ret_date` (for a retired contract only),
/// `:vid`, `:remote_behavior`.
pub open spec fn contract_sql(template: Seq<char>, c: ContractView) -> Seq<char> {
    let s1 = spec_replace(template, ":cid"@, c.contract_id);
    let s2 = spec_replace(s1, ":gen_date"@, c.generated_date);
    let s3 = spec_replace(s2, ":desc"@, c.description);
    let s4 = match c.retired_date {
        Some(d) => spec_replace(s3, ":ret_date"@, d),
        None => s3,
    };
    let s5 = spec_replace(s4, ":vid"@, c.version_id);
    spec_replace(s5, ":remote_behavior"@, decimal(c.remote_delete_behavior as nat))
}

/// The statement that saves a contract: an update if a contract with its
/// version id is recorded, an insert otherwise; each with the retired date
/// if the contract has one.
pub open spec fn save_template(recorded: bool, retired: bool) -> Seq<char> {
    if recorded {
        if retired {
            UPDATE_RETIRED_CONTRACT@
        } else {
            UPDATE_CONTRACT@
        }
    } else {
        if retired {
            INSERT_RETIRED_CONTRACT@
        } else {
            INSERT_CONTRACT@
        }
    }
}

/// The statement text that counts the contracts with version id `vid`.
pub open spec fn count_by_version_sql(vid: Seq<char>) -> Seq<char> {
    spec_replace(CONTRACT_COUNT_BY_VERSION@, ":vid"@, vid)
}

/// The statement text that retires the contract `vid` at the date `now`.
pub open spec fn retire_sql(now: Seq<char>, vid: Seq<char>) -> Seq<char> {
    spec_replace(spec_replace(RETIRE_CONTRACT@, ":retire_date"@, now), ":vid"@, vid)
}

fn fill_contract(template: &str, c: &CoopDatabaseContract) -> (r: String)
    ensures
        r@ == contract_sql(template@, c@),
{
    proof {
        reveal_strlit(":cid");
        reveal_strlit(":gen_date");
        reveal_strlit(":desc");
        reveal_strlit(":ret_date");
        reveal_strlit(":vid");
        reveal_strlit(":remote_behavior");
    }
    let s = replace(template, ":cid", c.contract_id.as_str());
    let s = replace(s.as_str(), ":gen_date", c.generated_date.as_str());
    let s = replace(s.as_str(), ":desc", c.description.as_str());
    let s = match &c.retired_date {
        Some(d) => replace(s.as_str(), ":ret_date", d.as_str()),
        None => s,
    };
    let s = replace(s.as_str(), ":vid", c.version_id.as_str());
    let b = u32_to_text(c.remote_delete_behavior);
    replace(s.as_str(), ":remote_behavior", b.as_str())
}

fn save_template_text(recorded: bool, retired: bool) -> (r: &'static str)
    ensures
        r@ == save_template(recorded, retired),
{
    if recorded {
        if retired {
            UPDATE_RETIRED_CONTRACT
        } else {
            UPDATE_CONTRACT
        }
    } else {
        if retired {
            INSERT_RETIRED_CONTRACT
        } else {
            INSERT_CONTRACT
        }
    }
}

/// The steps of saving a contract to the user database `db`: count the
/// contracts with its version id, then write it (see `save_template`).
pub open spec fn save_contract_spec(
    folder: Seq<char>,
    db: Seq<char>,
    c: ContractView,
    answers: Seq<u64>,
    r: DbStep<()>,
) -> bool {
    if answers.len() == 0 {
        r matches DbStep::Query(st) && st@ == stmt(folder, db, count_by_version_sql(c.version_id), Seq::empty())
    } else if answers.len() == 1 {
        r matches DbStep::Execute(st) && st@ == stmt(
            folder,
            db,
            contract_sql(save_template(answers[0] > 0, c.retired_date is Some), c),
            Seq::empty(),
        )
    } else {
        r == DbStep::<()>::Done(())
    }
}

fn contract_count_statement(db_name: &str, vid: &str, config: &DbiConfigSqlite) -> (r: DbStatement)
    ensures
        r@ == stmt(config.root_folder@, db_name@, count_by_version_sql(vid@), Seq::empty()),
{
    proof {
        reveal_strlit(":vid");
    }
    let cmd = replace(CONTRACT_COUNT_BY_VERSION, ":vid", vid);
    plain_statement(config.root_folder.as_str(), db_name, cmd.as_str())
}

fn contract_write_statement(
    db_name: &str,
    c: &CoopDatabaseContract,
    recorded: bool,
    config: &DbiConfigSqlite,
) -> (r: DbStatement)
    ensures
        r@ == stmt(
            config.root_folder@,
            db_name@,
            contract_sql(save_template(recorded, c@.retired_date is Some), c@),
            Seq::empty(),
        ),
{
    let template = save_template_text(recorded, c.is_retired());
    let cmd = fill_contract(template, c);
    plain_statement(config.root_folder.as_str(), db_name, cmd.as_str())
}

/// Saves a contract to the user database `db_name`: the next step, given
/// the outcomes of the steps taken so far (see `save_contract_spec`).
pub fn save_contract_at_connection(
    db_name: &str,
    contract: &CoopDatabaseContract,
    config: &DbiConfigSqlite,
    answers: &Vec<u64>,
) -> (r: DbStep<()>)
    ensures
        save_contract_spec(config.root_folder@, db_name@, contract@, answers@, r),
{
    if answers.len() == 0 {
        DbStep::Query(contract_count_statement(db_name, contract.version_id.as_str(), config))
    } else if answers.len() == 1 {
        DbStep::Execute(contract_write_statement(db_name, contract, answers[0] > 0, config))
    } else {
        DbStep::Done(())
    }
}

/// The statement that retires the contract with version id `version_id`
/// at the date `now`.
pub fn retire_contract_at(db_name: &str, version_id: &str, now: &str, config: &DbiConfigSqlite) -> (r:
    DbStatement)
    ensures
        r@ == stmt(config.root_folder@, db_name@, retire_sql(now@, version_id@), Seq::empty()),
{
    proof {
        reveal_strlit(":retire_date");
        reveal_strlit(":vid");
    }
    let cmd = replace(RETIRE_CONTRACT, ":retire_date", now);
    let cmd = replace(cmd.as_str(), ":vid", version_id);
    plain_statement(config.root_folder.as_str(), db_name, cmd.as_str())
}

/// The statement that retires the contract with version id `version_id`
/// at the current time, whatever the clock reads.
pub fn retire_contract(db_name: &str, version_id: &str, config: &DbiConfigSqlite) -> (r: DbStatement)
    ensures
        exists|now: Seq<char>| r@ == stmt(config.root_folder@, db_name@, retire_sql(now, version_id@), Seq::empty()),
{
    let now = utc_now_text();
    retire_contract_at(db_name, version_id, now.as_str(), config)
}

/// Whether `id` is the text of a GUID as it is written: 36 characters,
/// dashes at positions 8, 13, 18 and 23, uppercase hexadecimal digits
/// elsewhere.
pub open spec fn is_guid_text(id: Seq<char>) -> bool {
    &&& is_guid_pattern(id)
    &&& upper_guid(id) == id
}

/// A new, active contract with the description `desc` and the delete
/// behavior `behavior`, fresh contract and version ids, and the current
/// time as its generation date.
pub fn new_database_contract(desc: &str, behavior: RemoteDeleteBehavior) -> (r: CoopDatabaseContract)
    ensures
        is_guid_text(r@.contract_id),
        is_guid_text(r@.version_id),
        r@.description == desc@,
        r@.retired_date is None,
        r@.remote_delete_behavior == behavior.code(),
{
    CoopDatabaseContract {
        contract_id: new_guid_text(),
        generated_date: utc_now_text(),
        description: String::from_str(desc),
        retired_date: None,
        version_id: new_guid_text(),
        remote_delete_behavior: RemoteDeleteBehavior::to_u32(behavior),
    }
}

/// The values of a sequence of contracts.
pub open spec fn contract_views(s: Seq<CoopDatabaseContract>) -> Seq<ContractView> {
    s.map_values(|c: CoopDatabaseContract| c@)
}

/// One write of contracts: retire a version, or save a contract.
pub enum ContractOp {
    Retire(String),
    Save(CoopDatabaseContract),
}

/// The mathematical value of a write of contracts.
pub enum ContractOpView {
    Retire(Seq<char>),
    Save(ContractView),
}

impl View for ContractOp {
    type V = ContractOpView;

    open spec fn view(&self) -> ContractOpView {
        match self {
            ContractOp::Retire(v) => ContractOpView::Retire(v@),
            ContractOp::Save(c) => ContractOpView::Save(c@),
        }
    }
}

/// The values of a sequence of writes.
pub open spec fn op_views(s: Seq<ContractOp>) -> Seq<ContractOpView> {
    s.map_values(|o: ContractOp| o@)
}

/// The next statement of a run of contract writes, given the outcomes of
/// the statements run so far: a retirement takes one statement, a save two
/// (see `save_contract_spec`). The flag tells a count (true) from a write;
/// nothing is left once every write is done.
pub open spec fn ops_next(
    folder: Seq<char>,
    db: Seq<char>,
    now: Seq<char>,
    ops: Seq<ContractOpView>,
    answers: Seq<u64>,
) -> Option<(bool, DbStatementView)>
    decreases ops.len(),
{
    if ops.len() == 0 {
        None
    } else {
        match ops[0] {
            ContractOpView::Retire(vid) => if answers.len() == 0 {
                Some((false, stmt(folder, db, retire_sql(now, vid), Seq::empty())))
            } else {
                ops_next(folder, db, now, ops.drop_first(), answers.drop_first())
            },
            ContractOpView::Save(c) => if answers.len() == 0 {
                Some((true, stmt(folder, db, count_by_version_sql(c.version_id), Seq::empty())))
            } else if answers.len() == 1 {
                Some(
                    (
                        false,
                        stmt(
                            folder,
                            db,
                            contract_sql(save_template(answers[0] > 0, c.retired_date is Some), c),
                            Seq::empty(),
                        ),
                    ),
                )
            } else {
                ops_next(folder, db, now, ops.drop_first(), answers.subrange(2, answers.len() as int))
            },
        }
    }
}

/// `r` is the step that `next` names, or `Done(done)` if it names none.
pub open spec fn step_follows<T>(next: Option<(bool, DbStatementView)>, r: DbStep<T>, done: T) -> bool {
    match next {
        Some((q, v)) => if q {
            r matches DbStep::Query(st) && st@ == v
        } else {
            r matches DbStep::Execute(st) && st@ == v
        },
        None => r == DbStep::<T>::Done(done),
    }
}

proof fn lemma_ops_suffix(
    folder: Seq<char>,
    db: Seq<char>,
    now: Seq<char>,
    ops: Seq<ContractOpView>,
    i: int,
    answers: Seq<u64>,
    p: int,
)
    requires
        0 <= i < ops.len(),
        0 <= p <= answers.len(),
    ensures
        ops.subrange(i, ops.len() as int)[0] == ops[i],
        ops.subrange(i, ops.len() as int).drop_first() == ops.subrange(i + 1, ops.len() as int),
        p + 1 <= answers.len() ==> answers.subrange(p, answers.len() as int).drop_first()
            == answers.subrange(p + 1, answers.len() as int),
        p + 2 <= answers.len() ==> answers.subrange(p, answers.len() as int).subrange(
            2,
            answers.len() - p,
        ) == answers.subrange(p + 2, answers.len() as int),
{
    assert(ops.subrange(i, ops.len() as int).drop_first() =~= ops.subrange(i + 1, ops.len() as int));
    if p + 1 <= answers.len() {
        assert(answers.subrange(p, answers.len() as int).drop_first() =~= answers.subrange(
            p + 1,
            answers.len() as int,
        ));
    }
    if p + 2 <= answers.len() {
        assert(answers.subrange(p, answers.len() as int).subrange(2, answers.len() - p)
            =~= answers.subrange(p + 2, answers.len() as int));
    }
}

/// Runs the writes `ops` against the user database `db_name`, retiring at
/// the date `now`: the next step, given the outcomes `answers[start..]` of
/// the statements run so far, or `done` once every write is made.
fn run_contract_ops<T>(
    db_name: &str,
    now: &str,
    ops: &Vec<ContractOp>,
    answers: &Vec<u64>,
    start: usize,
    done: T,
    config: &DbiConfigSqlite,
) -> (r: DbStep<T>)
    requires
        start <= answers@.len(),
    ensures
        step_follows(
            ops_next(
                config.root_folder@,
                db_name@,
                now@,
                op_views(ops@),
                answers@.subrange(start as int, answers@.len() as int),
            ),
            r,
            done,
        ),
{
    let ghost views = op_views(ops@);
    let ghost goal = ops_next(
        config.root_folder@,
        db_name@,
        now@,
        views,
        answers@.subrange(start as int, answers@.len() as int),
    );
    let mut i: usize = 0;
    let mut p: usize = start;
    assert(views.subrange(0, views.len() as int) =~= views);
    while i < ops.len()
        invariant
            views == op_views(ops@),
            goal == ops_next(
                config.root_folder@,
                db_name@,
                now@,
                views,
                answers@.subrange(start as int, answers@.len() as int),
            ),
            i <= ops@.len(),
            p <= answers@.len(),
            goal == ops_next(
                config.root_folder@,
                db_name@,
                now@,
                views.subrange(i as int, views.len() as int),
                answers@.subrange(p as int, answers@.len() as int),
            ),
        decreases ops.len() - i,
    {
        proof {
            lemma_ops_suffix(config.root_folder@, db_name@, now@, views, i as int, answers@, p as int);
        }
        assert(views[i as int] == ops@[i as int]@);
        match &ops[i] {
            ContractOp::Retire(vid) => {
                if p == answers.len() {
                    assert(answers@.subrange(p as int, answers@.len() as int).len() == 0);
                    return DbStep::Execute(retire_contract_at(db_name, vid.as_str(), now, config));
                }
                p = p + 1;
            },
            ContractOp::Save(c) => {
                if p == answers.len() {
                    assert(answers@.subrange(p as int, answers@.len() as int).len() == 0);
                    return DbStep::Query(contract_count_statement(db_name, c.version_id.as_str(), config));
                }
                if p + 1 == answers.len() {
                    assert(answers@.subrange(p as int, answers@.len() as int).len() == 1);
                    assert(answers@.subrange(p as int, answers@.len() as int)[0] == answers@[p as int]);
                    return DbStep::Execute(contract_write_statement(db_name, c, answers[p] > 0, config));
                }
                p = p + 2;
            },
        }
        i = i + 1;
    }
    assert(views.subrange(i as int, views.len() as int) =~= Seq::<ContractOpView>::empty());
    DbStep::Done(done)
}

/// The writes that replace the contracts `existing` by `new_c`: each active
/// contract, in order, is retired and saved again; then `new_c` is saved.
pub open spec fn replace_ops(existing: Seq<ContractView>, new_c: ContractView) -> Seq<ContractOpView> {
    retire_ops(existing).push(ContractOpView::Save(new_c))
}

/// The retirements (each followed by a save of the contract) of the active
/// contracts among `existing`, in order.
pub open spec fn retire_ops(existing: Seq<ContractView>) -> Seq<ContractOpView>
    decreases existing.len(),
{
    if existing.len() == 0 {
        Seq::empty()
    } else {
        let c = existing.last();
        retire_ops(existing.drop_last()) + if c.retired_date is None {
            seq![ContractOpView::Retire(c.version_id), ContractOpView::Save(c)]
        } else {
            Seq::empty()
        }
    }
}

fn build_replace_ops(existing: &Vec<CoopDatabaseContract>, new_c: &CoopDatabaseContract) -> (r: Vec<
    ContractOp,
>)
    ensures
        op_views(r@) == replace_ops(
            contract_views(existing@),
            new_c@,
        ),
{
    let ghost all = contract_views(existing@);
    let mut ops: Vec<ContractOp> = Vec::new();
    let mut k: usize = 0;
    while k < existing.len()
        invariant
            all == contract_views(existing@),
            k <= existing@.len(),
            op_views(ops@) == retire_ops(all.subrange(0, k as int)),
        decreases existing.len() - k,
    {
        let ghost pre = all.subrange(0, k as int);
        let ghost post = all.subrange(0, k + 1);
        assert(post.drop_last() =~= pre);
        assert(post.last() == existing@[k as int]@);
        let ghost before = op_views(ops@);
        let c = &existing[k];
        if !c.is_retired() {
            ops.push(ContractOp::Retire(c.version_id.clone()));
            ops.push(ContractOp::Save(c.copy()));
            assert(op_views(ops@) =~= before + seq![
                ContractOpView::Retire(c@.version_id),
                ContractOpView::Save(c@),
            ]);
        } else {
            assert(before + Seq::<ContractOpView>::empty() =~= before);
        }
        k = k + 1;
    }
    assert(all.subrange(0, existing@.len() as int) =~= all);
    let ghost before = op_views(ops@);
    ops.push(ContractOp::Save(new_c.copy()));
    assert(op_views(ops@) =~= before.push(ContractOpView::Save(new_c@)));
    ops
}

/// The steps of generating a contract for the user database `db`, once the
/// policies of its user tables are known: refuse if a table has no policy
/// (see `contract_policy_check`); count the contracts; if there are none,
/// save `new_c`; otherwise read the contracts (they are `existing`), retire
/// and save again each active one, then save `new_c`; finish with true.
/// Retirements are dated `now`.
pub open spec fn generate_contract_spec(
    folder: Seq<char>,
    db: Seq<char>,
    policies: Seq<(String, LogicalStoragePolicy)>,
    existing: Seq<ContractView>,
    new_c: ContractView,
    now: Seq<char>,
    answers: Seq<u64>,
    r: DbStep<Result<bool, RcdGenerateContractError>>,
) -> bool {
    if some_policy_missing(policies) {
        r matches DbStep::Done(x) && contract_policy_check(policies, x)
    } else if answers.len() == 0 {
        r matches DbStep::Query(st) && st@ == stmt(folder, db, CONTRACT_COUNT@, Seq::empty())
    } else if answers[0] == 0 {
        step_follows(
            ops_next(folder, db, now, seq![ContractOpView::Save(new_c)], answers.drop_first()),
            r,
            Ok(true),
        )
    } else if answers.len() == 1 {
        r matches DbStep::Read(st) && st@ == stmt(folder, db, ALL_CONTRACTS@, Seq::empty())
    } else {
        step_follows(
            ops_next(folder, db, now, replace_ops(existing, new_c), answers.subrange(2, answers.len() as int)),
            r,
            Ok(true),
        )
    }
}

/// Generates a contract for the user database `db_name`, given the policy
/// of each user table (`policies`), the contracts read from the database
/// (`existing`; read when the step asks for them), the contract to add
/// (`new_contract`, from `new_database_contract`) and the date `now` at
/// which active contracts are retired: the next step, given the outcomes of
/// the steps taken so far (see `generate_contract_spec`).
pub fn generate_contract(
    db_name: &str,
    policies: &Vec<(String, LogicalStoragePolicy)>,
    existing: &Vec<CoopDatabaseContract>,
    new_contract: &CoopDatabaseContract,
    now: &str,
    config: &DbiConfigSqlite,
    answers: &Vec<u64>,
) -> (r: DbStep<Result<bool, RcdGenerateContractError>>)
    ensures
        generate_contract_spec(
            config.root_folder@,
            db_name@,
            policies@,
            contract_views(existing@),
            new_contract@,
            now@,
            answers@,
            r,
        ),
{
    let checked = check_contract_policies(db_name, policies, config);
    if checked.is_err() {
        return DbStep::Done(checked);
    }
    if answers.len() == 0 {
        return DbStep::Query(plain_statement(config.root_folder.as_str(), db_name, CONTRACT_COUNT));
    }
    if answers[0] == 0 {
        let mut ops: Vec<ContractOp> = Vec::new();
        ops.push(ContractOp::Save(new_contract.copy()));
        assert(op_views(ops@) =~= seq![ContractOpView::Save(new_contract@)]);
        assert(answers@.subrange(1, answers@.len() as int) =~= answers@.drop_first());
        return run_contract_ops(db_name, now, &ops, answers, 1, Ok(true), config);
    }
    if answers.len() == 1 {
        return DbStep::Read(plain_statement(config.root_folder.as_str(), db_name, ALL_CONTRACTS));
    }
    let ops = build_replace_ops(existing, new_contract);
    run_contract_ops(db_name, now, &ops, answers, 2, Ok(true), config)
}

/// The text of a value that holds data.
pub open spec fn value_text(v: Value) -> Seq<char> {
    v.data->0.data_string@
}

/// A value read from COOP_DATABASE_CONTRACT can be taken in: its column's
/// identifiers are GUIDs, its dates read under the format `fmt` (a retired
/// date only where there is one), its delete behavior is a number; the
/// values of these columns, and of the description, hold data.
pub open spec fn contract_value_readable(v: Value, fmt: Seq<char>) -> bool {
    let name = v.col.name@;
    let t = value_text(v);
    if name == "CONTRACT_ID"@ || name == "VERSION_ID"@ {
        v.data is Some && is_guid_pattern(t)
    } else if name == "GENERATED_DATE_UTC"@ {
        v.data is Some && utc_text_of(t, fmt) is Some
    } else if name == "DESCRIPTION"@ {
        v.data is Some
    } else if name == "RETIRED_DATE_UTC"@ {
        v.data is Some && t.len() > 0 ==> utc_text_of(t, fmt) is Some
    } else if name == "REMOTE_DELETE_BEHAVIOR"@ {
        v.data is Some && u32_text_value(t) is Some
    } else {
        true
    }
}

/// The position of the last value of `vals` whose column is `name`; -1
/// where there is none.
pub open spec fn last_index_of(vals: Seq<Value>, name: Seq<char>) -> int
    decreases vals.len(),
{
    if vals.len() == 0 {
        -1
    } else if vals.last().col.name@ == name {
        vals.len() - 1
    } else {
        last_index_of(vals.drop_last(), name)
    }
}

/// The retired date that a value of RETIRED_DATE_UTC gives: one only where
/// it holds a non-empty text.
pub open spec fn retired_of(v: Value, fmt: Seq<char>) -> Option<Seq<char>> {
    if v.data is Some && value_text(v).len() > 0 {
        utc_text_of(value_text(v), fmt)
    } else {
        None
    }
}

/// `c` is the contract taken in from the values `vals` of one row: each
/// field is read from the last value of its column (identifiers made
/// uppercase, dates rewritten as UTC times, the behavior as a number); a
/// field whose column the row lacks keeps its starting value: a fresh
/// identifier, the time of the read, no description, no retired date and
/// the behavior 0.
pub open spec fn contract_of_row(vals: Seq<Value>, fmt: Seq<char>, c: ContractView) -> bool {
    let ci = last_index_of(vals, "CONTRACT_ID"@);
    let gi = last_index_of(vals, "GENERATED_DATE_UTC"@);
    let di = last_index_of(vals, "DESCRIPTION"@);
    let ri = last_index_of(vals, "RETIRED_DATE_UTC"@);
    let vi = last_index_of(vals, "VERSION_ID"@);
    let bi = last_index_of(vals, "REMOTE_DELETE_BEHAVIOR"@);
    &&& if ci >= 0 {
        c.contract_id == upper_guid(value_text(vals[ci]))
    } else {
        is_guid_text(c.contract_id)
    }
    &&& gi >= 0 ==> c.generated_date == utc_text_of(value_text(vals[gi]), fmt)->0
    &&& c.description == (if di >= 0 {
        value_text(vals[di])
    } else {
        Seq::empty()
    })
    &&& c.retired_date == (if ri >= 0 {
        retired_of(vals[ri], fmt)
    } else {
        None
    })
    &&& if vi >= 0 {
        c.version_id == upper_guid(value_text(vals[vi]))
    } else {
        is_guid_text(c.version_id)
    }
    &&& c.remote_delete_behavior == (if bi >= 0 {
        u32_text_value(value_text(vals[bi]))->0
    } else {
        0u32
    })
}

/// The last value of a column, after one more value is read.
proof fn lemma_last_index_push(vals: Seq<Value>, k: int, name: Seq<char>)
    requires
        0 <= k < vals.len(),
    ensures
        last_index_of(vals.take(k + 1), name) == (if vals[k].col.name@ == name {
            k
        } else {
            last_index_of(vals.take(k), name)
        }),
        last_index_of(vals.take(k), name) < k,
{
    assert(vals.take(k + 1).drop_last() =~= vals.take(k));
    lemma_last_index_below(vals.take(k), name);
}

proof fn lemma_last_index_below(vals: Seq<Value>, name: Seq<char>)
    ensures
        -1 <= last_index_of(vals, name) < vals.len(),
        last_index_of(vals, name) >= 0 ==> vals[last_index_of(vals, name)].col.name@ == name,
    decreases vals.len(),
{
    if vals.len() > 0 {
        lemma_last_index_below(vals.drop_last(), name);
    }
}

/// Reads the value `v` into the field of its column; false, with the
/// contract left as it may, where the value cannot be taken in.
fn read_contract_value(c: &mut CoopDatabaseContract, v: &Value, fmt: &str) -> (ok: bool)
    ensures
        ok <==> contract_value_readable(*v, fmt@),
        ok ==> {
            let name = v.col.name@;
            let t = value_text(*v);
            let o = old(c)@;
            let n = final(c)@;
            &&& n.contract_id == (if name == "CONTRACT_ID"@ {
                upper_guid(t)
            } else {
                o.contract_id
            })
            &&& n.generated_date == (if name == "GENERATED_DATE_UTC"@ {
                utc_text_of(t, fmt@)->0
            } else {
                o.generated_date
            })
            &&& n.description == (if name == "DESCRIPTION"@ {
                t
            } else {
                o.description
            })
            &&& n.retired_date == (if name == "RETIRED_DATE_UTC"@ {
                retired_of(*v, fmt@)
            } else {
                o.retired_date
            })
            &&& n.version_id == (if name == "VERSION_ID"@ {
                upper_guid(t)
            } else {
                o.version_id
            })
            &&& n.remote_delete_behavior == (if name == "REMOTE_DELETE_BEHAVIOR"@ {
                u32_text_value(t)->0
            } else {
                o.remote_delete_behavior
            })
        },
{
    proof {
        reveal_strlit("CONTRACT_ID");
        reveal_strlit("VERSION_ID");
        reveal_strlit("GENERATED_DATE_UTC");
        reveal_strlit("DESCRIPTION");
        reveal_strlit("RETIRED_DATE_UTC");
        reveal_strlit("REMOTE_DELETE_BEHAVIOR");
        assert("REMOTE_DELETE_BEHAVIOR"@.len() == 22);
        assert("RETIRED_DATE_UTC"@.len() == 16);
        assert("CONTRACT_ID"@.len() == 11);
        assert("VERSION_ID"@.len() == 10);
        assert("GENERATED_DATE_UTC"@.len() == 18);
        assert("DESCRIPTION"@.len() == 11);
        assert("CONTRACT_ID"@[0] != "DESCRIPTION"@[0]);
    }
    let name = v.col.name.as_str();
    let is_cid = text_eq(name, "CONTRACT_ID");
    let is_vid = text_eq(name, "VERSION_ID");
    let is_gen = text_eq(name, "GENERATED_DATE_UTC");
    let is_desc = text_eq(name, "DESCRIPTION");
    let is_ret = text_eq(name, "RETIRED_DATE_UTC");
    let is_beh = text_eq(name, "REMOTE_DELETE_BEHAVIOR");
    if is_cid || is_vid || is_gen || is_desc || is_beh {
        match &v.data {
            None => false,
            Some(d) => {
                let t = d.data_string.as_str();
                if is_cid || is_vid {
                    match canonical_guid(t) {
                        Some(g) => {
                            if is_cid {
                                c.contract_id = g;
                            } else {
                                c.version_id = g;
                            }
                            true
                        },
                        None => false,
                    }
                } else if is_gen {
                    match parse_utc_text(t, fmt) {
                        Some(g) => {
                            c.generated_date = g;
                            true
                        },
                        None => false,
                    }
                } else if is_desc {
                    c.description = d.data_string.clone();
                    true
                } else {
                    match parse_u32(t) {
                        Some(b) => {
                            c.remote_delete_behavior = b;
                            true
                        },
                        None => false,
                    }
                }
            },
        }
    } else if is_ret {
        match &v.data {
            None => {
                c.retired_date = None;
                true
            },
            Some(d) => {
                let t = d.data_string.as_str();
                if t.unicode_len() > 0 {
                    match parse_utc_text(t, fmt) {
                        Some(g) => {
                            c.retired_date = Some(g);
                            true
                        },
                        None => false,
                    }
                } else {
                    c.retired_date = None;
                    true
                }
            },
        }
    } else {
        true
    }
}

/// The contract held by one row of COOP_DATABASE_CONTRACT (see
/// `contract_of_row`); None where one of its values cannot be taken in.
fn contract_from_row(row: &TableRow, fmt: &str) -> (r: Option<CoopDatabaseContract>)
    ensures
        r is Some <==> forall|j: int|
            0 <= j < row.vals@.len() ==> contract_value_readable(#[trigger] row.vals@[j], fmt@),
        r matches Some(c) ==> contract_of_row(row.vals@, fmt@, c@),
{
    let mut c = CoopDatabaseContract {
        contract_id: new_guid_text(),
        generated_date: utc_now_text(),
        description: String::new(),
        retired_date: None,
        version_id: new_guid_text(),
        remote_delete_behavior: 0,
    };
    let ghost vals = row.vals@;
    assert(vals.take(0) =~= Seq::<Value>::empty());
    let mut k: usize = 0;
    while k < row.vals.len()
        invariant
            vals == row.vals@,
            k <= vals.len(),
            forall|j: int| 0 <= j < k ==> contract_value_readable(#[trigger] vals[j], fmt@),
            contract_of_row(vals.take(k as int), fmt@, c@),
        decreases row.vals.len() - k,
    {
        let ghost pre = vals.take(k as int);
        let ghost post = vals.take(k + 1);
        proof {
            reveal_strlit("CONTRACT_ID");
            reveal_strlit("VERSION_ID");
            reveal_strlit("GENERATED_DATE_UTC");
            reveal_strlit("DESCRIPTION");
            reveal_strlit("RETIRED_DATE_UTC");
            reveal_strlit("REMOTE_DELETE_BEHAVIOR");
            lemma_last_index_push(vals, k as int, "CONTRACT_ID"@);
            lemma_last_index_push(vals, k as int, "VERSION_ID"@);
            lemma_last_index_push(vals, k as int, "GENERATED_DATE_UTC"@);
            lemma_last_index_push(vals, k as int, "DESCRIPTION"@);
            lemma_last_index_push(vals, k as int, "RETIRED_DATE_UTC"@);
            lemma_last_index_push(vals, k as int, "REMOTE_DELETE_BEHAVIOR"@);
            assert(forall|j: int| 0 <= j < k ==> post[j] == pre[j]);
            assert(post[k as int] == vals[k as int]);
        }
        if !read_contract_value(&mut c, &row.vals[k], fmt) {
            return None;
        }
        k = k + 1;
    }
    assert(vals.take(k as int) =~= vals);
    Some(c)
}

/// The contracts read from the rows of COOP_DATABASE_CONTRACT, dates read
/// under the format `fmt`: one for each row, in order, built from the
/// values of that row (see `contract_of_row`). None where a value cannot be
/// taken in (see `contract_value_readable`): the read stops there.
pub fn get_all_database_contracts(table: &Table, fmt: &str) -> (r: Option<Vec<CoopDatabaseContract>>)
    ensures
        r is Some <==> forall|i: int, j: int|
            0 <= i < table.rows@.len() && 0 <= j < table.rows@[i].vals@.len()
                ==> contract_value_readable(#[trigger] table.rows@[i].vals@[j], fmt@),
        r matches Some(v) ==> {
            &&& v@.len() == table.rows@.len()
            &&& forall|i: int|
                0 <= i < v@.len() ==> contract_of_row(table.rows@[i].vals@, fmt@, #[trigger] v@[i]@)
        },
{
    let mut out: Vec<CoopDatabaseContract> = Vec::new();
    let mut i: usize = 0;
    while i < table.rows.len()
        invariant
            i <= table.rows@.len(),
            out@.len() == i,
            forall|a: int, j: int|
                0 <= a < i && 0 <= j < table.rows@[a].vals@.len() ==> contract_value_readable(
                    #[trigger] table.rows@[a].vals@[j],
                    fmt@,
                ),
            forall|a: int| 0 <= a < i ==> contract_of_row(table.rows@[a].vals@, fmt@, #[trigger] out@[a]@),
        decreases table.rows.len() - i,
    {
        match contract_from_row(&table.rows[i], fmt) {
            Some(c) => {
                out.push(c);
            },
            None => {
                return None;
            },
        }
        i = i + 1;
    }
    Some(out)
}

/// A contract is refused exactly when some user table has no policy.
pub proof fn law_contract_refused_iff_policy_missing(
    policies: Seq<(String, LogicalStoragePolicy)>,
    r: Result<bool, RcdGenerateContractError>,
)
    requires
        contract_policy_check(policies, r),
    ensures
        r is Err <==> some_policy_missing(policies),
{
}

proof fn lemma_retire_ops(existing: Seq<ContractView>)
    ensures
        forall|i: int|
            0 <= i < existing.len() && (#[trigger] existing[i]).retired_date is None ==> retire_ops(
                existing,
            ).contains(ContractOpView::Retire(existing[i].version_id)),
        forall|j: int|
            0 <= j < retire_ops(existing).len() ==> (#[trigger] retire_ops(existing)[j] matches ContractOpView::Retire(
                v,
            ) ==> exists|i: int|
                0 <= i < existing.len() && existing[i].retired_date is None && existing[i].version_id == v),
    decreases existing.len(),
{
    if existing.len() > 0 {
        let pre = existing.drop_last();
        let c = existing.last();
        lemma_retire_ops(pre);
        let tail: Seq<ContractOpView> = if c.retired_date is None {
            seq![ContractOpView::Retire(c.version_id), ContractOpView::Save(c)]
        } else {
            Seq::empty()
        };
        let ops = retire_ops(existing);
        assert(ops == retire_ops(pre) + tail);
        assert forall|i: int|
            0 <= i < existing.len() && (#[trigger] existing[i]).retired_date is None implies ops.contains(
                ContractOpView::Retire(existing[i].version_id),
            ) by {
            if i < pre.len() {
                assert(pre[i] == existing[i]);
                let j = choose|j: int|
                    0 <= j < retire_ops(pre).len() && retire_ops(pre)[j] == ContractOpView::Retire(
                        pre[i].version_id,
                    );
                assert(ops[j] == retire_ops(pre)[j]);
            } else {
                assert(ops[retire_ops(pre).len() as int] == ContractOpView::Retire(c.version_id));
            }
        }
        assert forall|j: int|
            0 <= j < ops.len() implies (#[trigger] ops[j] matches ContractOpView::Retire(v) ==> exists|i: int|
                0 <= i < existing.len() && existing[i].retired_date is None && existing[i].version_id
                    == v) by {
            if j < retire_ops(pre).len() {
                assert(ops[j] == retire_ops(pre)[j]);
                if let ContractOpView::Retire(v) = ops[j] {
                    let i = choose|i: int|
                        0 <= i < pre.len() && pre[i].retired_date is None && pre[i].version_id == v;
                    assert(existing[i] == pre[i]);
                }
            } else {
                let m = j - retire_ops(pre).len();
                assert(ops[j] == tail[m]);
                if let ContractOpView::Retire(v) = ops[j] {
                    assert(existing[existing.len() - 1] == c);
                }
            }
        }
    }
}

/// Generating a contract where contracts exist replaces them: every active
/// contract is retired, only active contracts are retired, and the new
/// contract is saved last.
pub proof fn law_generation_retires_every_active_contract(existing: Seq<ContractView>, new_c: ContractView)
    ensures
        replace_ops(existing, new_c).last() == ContractOpView::Save(new_c),
        forall|i: int|
            0 <= i < existing.len() && (#[trigger] existing[i]).retired_date is None ==> replace_ops(
                existing,
                new_c,
            ).contains(ContractOpView::Retire(existing[i].version_id)),
        forall|j: int|
            0 <= j < replace_ops(existing, new_c).len() ==> (#[trigger] replace_ops(existing, new_c)[j] matches ContractOpView::Retire(
                v,
            ) ==> exists|i: int|
                0 <= i < existing.len() && existing[i].retired_date is None && existing[i].version_id == v),
{
    lemma_retire_ops(existing);
    let ops = replace_ops(existing, new_c);
    let base = retire_ops(existing);
    assert forall|i: int|
        0 <= i < existing.len() && (#[trigger] existing[i]).retired_date is None implies ops.contains(
            ContractOpView::Retire(existing[i].version_id),
        ) by {
        let j = choose|j: int| 0 <= j < base.len() && base[j] == ContractOpView::Retire(existing[i].version_id);
        assert(ops[j] == base[j]);
    }
    assert forall|j: int|
        0 <= j < ops.len() implies (#[trigger] ops[j] matches ContractOpView::Retire(v) ==> exists|i: int|
            0 <= i < existing.len() && existing[i].retired_date is None && existing[i].version_id == v) by {
        if j < base.len() {
            assert(ops[j] == base[j]);
        }
    }
}

/// The statement that reads the active contract of a database.
pub const ACTIVE_CONTRACT: &'static str = "
        SELECT 
            CONTRACT_ID,
            GENERATED_DATE_UTC,
            DESCRIPTION,
            VERSION_ID,
            REMOTE_DELETE_BEHAVIOR 
        FROM 
            COOP_DATABASE_CONTRACT 
        WHERE 
            RETIRED_DATE_UTC IS NULL
        ;";

/// The statement that reads the active contract of the user database
/// `db_name`.
pub fn active_contract_statement(db_name: &str, config: &DbiConfigSqlite) -> (r: DbStatement)
    ensures
        r@ == stmt(config.root_folder@, db_name@, ACTIVE_CONTRACT@, Seq::empty()),
{
    plain_statement(config.root_folder.as_str(), db_name, ACTIVE_CONTRACT)
}

/// The active contract read from a row of the active contract read, dates
/// read under the format `fmt`: its identifiers made uppercase, its
/// generation date rewritten as a UTC time, no retired date. None where an
/// identifier is not a GUID or the date does not read under `fmt`.
pub fn active_contract_from_row(
    contract_id: &str,
    generated_date_utc: &str,
    description: String,
    version_id: &str,
    remote_delete_behavior: u32,
    fmt: &str,
) -> (r: Option<CoopDatabaseContract>)
    ensures
        r is Some <==> (is_guid_pattern(contract_id@) && is_guid_pattern(version_id@) && utc_text_of(
            generated_date_utc@,
            fmt@,
        ) is Some),
        r matches Some(c) ==> {
            &&& c@.contract_id == upper_guid(contract_id@)
            &&& utc_text_of(generated_date_utc@, fmt@) == Some(c@.generated_date)
            &&& c.description == description
            &&& c@.retired_date is None
            &&& c@.version_id == upper_guid(version_id@)
            &&& c.remote_delete_behavior == remote_delete_behavior
        },
{
    let cid = canonical_guid(contract_id);
    let gen = parse_utc_text(generated_date_utc, fmt);
    let vid = canonical_guid(version_id);
    match (cid, gen, vid) {
        (Some(c), Some(g), Some(v)) => Some(
            CoopDatabaseContract {
                contract_id: c,
                generated_date: g,
                description,
                retired_date: None,
                version_id: v,
                remote_delete_behavior,
            },
        ),
        _ => None,
    }
}

/// The contract a lookup of the active contract keeps: the first one read.
/// A lookup that read none is refused.
pub fn first_contract(found: Vec<CoopDatabaseContract>) -> (r: CoopDatabaseContract)
    requires
        found@.len() > 0,
    ensures
        r == found@[0],
{
    let mut v = found;
    v.swap_remove(0)
}

} // verus!
