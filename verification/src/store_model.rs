//! Models of the tables that the operations on the backing store touch, and
//! the laws that hold of those tables across calls.
//!
//! An operation is run against a model of its tables: each statement it
//! issues is answered by the tables as they then stand and changes them as
//! its SQL does. A model says, for the statements that matter to it, what
//! they answer and how they change the tables; every other statement leaves
//! the modelled tables as they are.
use vstd::prelude::*;

use crate::contract::{
    contract_sql, count_by_version_sql, generate_contract_spec, ops_next, replace_ops, retire_ops,
    retire_sql, save_template, step_follows, ContractOpView, ContractView, ALL_CONTRACTS,
};
use crate::dbi::DbiConfigSqlite;
use crate::participant::{insert_params, participant_count_sql};
use crate::rcd_db::{configure_admin_spec, generate_and_get_host_info_spec, sysadmin};
use crate::rcd_enum::{LogicalStoragePolicy, RcdDbError, RcdGenerateContractError};
use crate::sql_text::{
    ADD_DATABASE_ID_TO_HOST, ADD_HOST_INFO, ADD_PARTICIPANT, ADD_USER, ADD_USER_ROLE, CONTRACT_COUNT,
    GET_COUNT_FROM_DATA_HOST, GET_HOST_INFO, GET_USER_ROLE, HAS_LOGIN, HAS_TABLE, HOST_INFO_COUNT,
    REMOTES_COUNT_FOR_TABLE, REMOTES_INSERT_POLICY, REMOTES_POLICY_FOR_TABLE, REMOTES_UPDATE_POLICY,
};
use crate::sqlite_store::{
    add_participant_spec, enable_cooperative_features_spec, for_table, host_stmt, is_new_participant,
    coop_table_sql, policy_lookup_spec, policy_sql, rcd_stmt, set_policy_spec, some_policy_missing,
};
use crate::statement::{stmt, DbStatementView, DbStep, SqlValueView};

verus! {

/// The statement that a step runs; None for a finished operation.
pub open spec fn step_statement<T>(r: DbStep<T>) -> Option<DbStatementView> {
    match r {
        DbStep::Query(st) => Some(st@),
        DbStep::Execute(st) => Some(st@),
        DbStep::Read(st) => Some(st@),
        DbStep::Done(_) => None,
    }
}

/// `steps` is a whole run of the operation `op` against tables modelled by
/// `sem`: `steps[k]` is the step that `op` takes after the outcomes
/// `answers[0..k]`; each step before the last runs a statement, which the
/// tables in state `states[k]` answer with `answers[k]` while they move to
/// `states[k + 1]` (`sem(states[k], statement, answers[k], states[k + 1])`);
/// the last step finishes the operation.
pub open spec fn is_run<T, S>(
    op: spec_fn(Seq<u64>, DbStep<T>) -> bool,
    sem: spec_fn(S, DbStatementView, u64, S) -> bool,
    states: Seq<S>,
    answers: Seq<u64>,
    steps: Seq<DbStep<T>>,
) -> bool {
    &&& states.len() == answers.len() + 1
    &&& steps.len() == answers.len() + 1
    &&& forall|k: int| 0 <= k < steps.len() ==> op(answers.take(k), #[trigger] steps[k])
    &&& forall|k: int|
        0 <= k < answers.len() ==> step_statement(#[trigger] steps[k]) is Some && sem(
            states[k],
            step_statement(steps[k])->0,
            answers[k],
            states[k + 1],
        )
    &&& steps.last() is Done
}

/// The statement that counts the participants of `db` with alias `alias`.
pub open spec fn participant_count_view(config: DbiConfigSqlite, db: Seq<char>, alias: Seq<char>) -> DbStatementView {
    host_stmt(config, db, participant_count_sql(alias), Seq::empty())
}

/// The rows of COOP_PARTICIPANT in `db` whose alias is `alias`, each as
/// the parameters it was saved with: a count by that alias answers their
/// number; saving a new participant with that alias adds a row.
pub open spec fn participant_rows_sem(config: DbiConfigSqlite, db: Seq<char>, alias: Seq<char>) -> spec_fn(
    Seq<Seq<(Seq<char>, SqlValueView)>>,
    DbStatementView,
    u64,
    Seq<Seq<(Seq<char>, SqlValueView)>>,
) -> bool {
    |n: Seq<Seq<(Seq<char>, SqlValueView)>>, st: DbStatementView, a: u64, m: Seq<Seq<(Seq<char>, SqlValueView)>>|
        {
            let adds = st.folder == config.root_folder@ && st.file == db && st.sql == ADD_PARTICIPANT@
                && st.params.contains((":alias"@, SqlValueView::Text(alias)));
            &&& st == participant_count_view(config, db, alias) ==> a == n.len() && m == n
            &&& adds ==> m == n.push(st.params)
            &&& !adds ==> m == n
        }
}

/// Adding a participant answers whether no participant had its alias, and
/// afterwards the participant is there: where there was none, one row is
/// added, a new participant with the alias, address and port given and the
/// contract status NotSent; otherwise the rows are as they were. A
/// has-participant count by the alias then finds it.
pub proof fn law_added_participant_is_found(
    config: DbiConfigSqlite,
    db: Seq<char>,
    alias: Seq<char>,
    ip4addr: Seq<char>,
    db_port: u32,
    states: Seq<Seq<Seq<(Seq<char>, SqlValueView)>>>,
    answers: Seq<u64>,
    steps: Seq<DbStep<bool>>,
)
    requires
        is_run(
            |a: Seq<u64>, r: DbStep<bool>| add_participant_spec(config, db, alias, ip4addr, db_port, a, r),
            participant_rows_sem(config, db, alias),
            states,
            answers,
            steps,
        ),
    ensures
        steps.last() == DbStep::<bool>::Done(states[0].len() == 0),
        states[0].len() == 0 ==> exists|p: crate::participant::CoopDatabaseParticipant|
            is_new_participant(p, alias, ip4addr, db_port) && states.last() == seq![insert_params(p)],
        states[0].len() > 0 ==> states.last() == states[0],
        forall|a: u64, m: Seq<Seq<(Seq<char>, SqlValueView)>>|
            #[trigger] participant_rows_sem(config, db, alias)(
                states.last(),
                participant_count_view(config, db, alias),
                a,
                m,
            ) ==> a > 0,
{
    let sem = participant_rows_sem(config, db, alias);
    let count = participant_count_view(config, db, alias);
    assert(answers.take(0) =~= Seq::<u64>::empty());
    assert(add_participant_spec(config, db, alias, ip4addr, db_port, answers.take(0), steps[0]));
    assert(step_statement(steps[0]) == Some(count));
    assert(!count.params.contains((":alias"@, SqlValueView::Text(alias))));
    assert(answers.len() >= 1);
    assert(sem(states[0], count, answers[0], states[1]));
    assert(answers[0] == states[0].len() && states[1] == states[0]);
    assert(add_participant_spec(config, db, alias, ip4addr, db_port, answers.take(1), steps[1]));
    if states[0].len() > 0 {
        assert(steps[1] == DbStep::<bool>::Done(false));
        if answers.len() > 1 {
            assert(step_statement(steps[1]) is Some);
        }
        assert(answers.len() == 1);
    } else {
        assert(step_statement(steps[1]) == Some(count));
        assert(answers.len() >= 2);
        assert(sem(states[1], count, answers[1], states[2]));
        assert(answers.take(2)[1] == 0);
        assert(add_participant_spec(config, db, alias, ip4addr, db_port, answers.take(2), steps[2]));
        let p = choose|p: crate::participant::CoopDatabaseParticipant|
            is_new_participant(p, alias, ip4addr, db_port) && (steps[2] matches DbStep::Execute(st) && st@
                == host_stmt(config, db, ADD_PARTICIPANT@, insert_params(p)));
        let ins = host_stmt(config, db, ADD_PARTICIPANT@, insert_params(p));
        assert(ins.params[1] == (":alias"@, SqlValueView::Text(alias)));
        assert(ins.params.contains((":alias"@, SqlValueView::Text(alias))));
        assert(step_statement(steps[2]) == Some(ins));
        assert(answers.len() >= 3);
        assert(sem(states[2], ins, answers[2], states[3]));
        assert(states[3] =~= seq![insert_params(p)]);
        assert(add_participant_spec(config, db, alias, ip4addr, db_port, answers.take(3), steps[3]));
        assert(steps[3] == DbStep::<bool>::Done(true));
        if answers.len() > 3 {
            assert(step_statement(steps[3]) is Some);
        }
        assert(answers.len() == 3);
    }
}

/// The statement that counts the identifier rows of COOP_DATA_HOST in `db`.
pub open spec fn data_host_count_view(config: DbiConfigSqlite, db: Seq<char>) -> DbStatementView {
    host_stmt(config, db, GET_COUNT_FROM_DATA_HOST@, Seq::empty())
}

/// The statement that records the identifier `id` for the database `db`.
pub open spec fn id_insert_view(config: DbiConfigSqlite, db: Seq<char>, id: Seq<char>) -> DbStatementView {
    host_stmt(
        config,
        db,
        ADD_DATABASE_ID_TO_HOST@,
        seq![(":database_id"@, SqlValueView::Text(id)), (":database_name"@, SqlValueView::Text(db))],
    )
}

/// The table that the `k`-th statement of enabling cooperative features
/// creates, if it does not exist.
pub open spec fn coop_table_name(k: int) -> Seq<char> {
    if k == 0 {
        "COOP_REMOTES"@
    } else if k == 1 {
        "COOP_PARTICIPANT"@
    } else if k == 2 {
        "COOP_DATABASE_CONTRACT"@
    } else if k == 3 {
        "COOP_DATA_HOST"@
    } else if k == 4 {
        "COOP_DATA_TABLES"@
    } else if k == 5 {
        "COOP_DATA_HOST_TABLE_COLUMNS"@
    } else {
        "COOP_REMOTES"@
    }
}

/// The tables that enabling cooperative features creates.
pub open spec fn coop_table_names() -> Set<Seq<char>> {
    Set::new(|n: Seq<char>| exists|k: int| 0 <= k < 7 && n == coop_table_name(k))
}

/// The cooperative tables of a user database: the names of the tables
/// that exist, and the identifiers recorded in COOP_DATA_HOST, in order.
pub struct CoopTables {
    pub tables: Set<Seq<char>>,
    pub ids: Seq<Seq<char>>,
}

/// What the statements of enabling cooperative features answer and do:
/// each creation makes its table exist; the count answers the number of
/// identifiers, and recording an identifier adds it.
pub open spec fn coop_tables_sem(config: DbiConfigSqlite, db: Seq<char>) -> spec_fn(
    CoopTables,
    DbStatementView,
    u64,
    CoopTables,
) -> bool {
    |s: CoopTables, st: DbStatementView, a: u64, t: CoopTables|
        {
            &&& forall|k: int|
                0 <= k < 7 && st == host_stmt(config, db, #[trigger] coop_table_sql(k), Seq::empty()) ==> t
                    == CoopTables { tables: s.tables.insert(coop_table_name(k)), ids: s.ids }
            &&& st == data_host_count_view(config, db) ==> a == s.ids.len() && t == s
            &&& forall|id: Seq<char>|
                st == #[trigger] id_insert_view(config, db, id) ==> t == CoopTables {
                    tables: s.tables,
                    ids: s.ids.push(id),
                }
            &&& (forall|k: int| 0 <= k < 7 ==> st != host_stmt(config, db, #[trigger] coop_table_sql(k), Seq::empty()))
                && (forall|id: Seq<char>| st != #[trigger] id_insert_view(config, db, id)) ==> t == s
        }
}

/// Enabling cooperative features makes the COOP tables exist, keeping the
/// tables that were there, and leaves COOP_DATA_HOST with one identifier
/// row: a fresh identifier where there was none, the rows as they were
/// otherwise.
pub proof fn law_enabling_cooperation_keeps_one_identifier(
    config: DbiConfigSqlite,
    db: Seq<char>,
    states: Seq<CoopTables>,
    answers: Seq<u64>,
    steps: Seq<DbStep<()>>,
)
    requires
        is_run(
            |a: Seq<u64>, r: DbStep<()>| enable_cooperative_features_spec(config, db, a, r),
            coop_tables_sem(config, db),
            states,
            answers,
            steps,
        ),
    ensures
        states.last().tables == states[0].tables.union(coop_table_names()),
        states[0].ids.len() == 0 ==> states.last().ids.len() == 1 && states.last().ids[0].len() == 36,
        states[0].ids.len() > 0 ==> states.last().ids == states[0].ids,
{
    let sem = coop_tables_sem(config, db);
    assert(answers.len() >= 7) by {
        if answers.len() < 7 {
            let n = answers.len() as int;
            assert(answers.take(n).len() == n);
            assert(enable_cooperative_features_spec(config, db, answers.take(n), steps[n]));
        }
    }
    assert forall|j: int| 1 <= j <= 7 implies #[trigger] states[j] == CoopTables {
        tables: states[j - 1].tables.insert(coop_table_name(j - 1)),
        ids: states[j - 1].ids,
    } by {
        let k = j - 1;
        assert(answers.take(k).len() == k);
        assert(enable_cooperative_features_spec(config, db, answers.take(k), steps[k]));
        let st = step_statement(steps[k])->0;
        assert(st == host_stmt(config, db, coop_table_sql(k), Seq::empty()));
        assert(sem(states[k], st, answers[k], states[k + 1]));
    }
    let t0 = states[0].tables;
    assert(states[7].ids == states[0].ids && states[7].tables =~= t0.insert(coop_table_name(0)).insert(
        coop_table_name(1),
    ).insert(coop_table_name(2)).insert(coop_table_name(3)).insert(coop_table_name(4)).insert(
        coop_table_name(5),
    ).insert(coop_table_name(6))) by {
        assert(states[1] == CoopTables { tables: states[0].tables.insert(coop_table_name(0)), ids: states[0].ids });
        assert(states[2] == CoopTables { tables: states[1].tables.insert(coop_table_name(1)), ids: states[1].ids });
        assert(states[3] == CoopTables { tables: states[2].tables.insert(coop_table_name(2)), ids: states[2].ids });
        assert(states[4] == CoopTables { tables: states[3].tables.insert(coop_table_name(3)), ids: states[3].ids });
        assert(states[5] == CoopTables { tables: states[4].tables.insert(coop_table_name(4)), ids: states[4].ids });
        assert(states[6] == CoopTables { tables: states[5].tables.insert(coop_table_name(5)), ids: states[5].ids });
        assert(states[7] == CoopTables { tables: states[6].tables.insert(coop_table_name(6)), ids: states[6].ids });
    }
    let t7 = states[7].tables;
    assert(answers.take(7).len() == 7);
    assert(enable_cooperative_features_spec(config, db, answers.take(7), steps[7]));
    assert(step_statement(steps[7]) == Some(data_host_count_view(config, db)));
    assert(answers.len() >= 8);
    assert(sem(states[7], data_host_count_view(config, db), answers[7], states[8]));
    assert(answers[7] == states[0].ids.len() && states[8] == states[7]);
    assert(answers.take(8).len() == 8 && answers.take(8)[7] == answers[7]);
    assert(enable_cooperative_features_spec(config, db, answers.take(8), steps[8]));
    if states[0].ids.len() == 0 {
        let st = steps[8]->Execute_0;
        let id = choose|id: Seq<char>|
            id.len() == 36 && st@ == host_stmt(
                config,
                db,
                ADD_DATABASE_ID_TO_HOST@,
                seq![(":database_id"@, SqlValueView::Text(id)), (":database_name"@, SqlValueView::Text(db))],
            );
        assert(st@ == id_insert_view(config, db, id));
        assert(answers.len() >= 9);
        assert(sem(states[8], id_insert_view(config, db, id), answers[8], states[9]));
        assert(states[9].ids == states[8].ids.push(id) && states[9].tables == t7);
        assert(answers.take(9).len() == 9);
        assert(enable_cooperative_features_spec(config, db, answers.take(9), steps[9]));
        if answers.len() > 9 {
            assert(step_statement(steps[9]) is Some);
        }
        assert(states.last() == states[9]);
    } else {
        if answers.len() > 8 {
            assert(step_statement(steps[8]) is Some);
        }
        assert(states.last() == states[8]);
    }
    assert(states.last().tables == t7);
    assert forall|n: Seq<char>| #[trigger] t7.contains(n) <==> t0.union(coop_table_names()).contains(n) by {
        if coop_table_names().contains(n) {
            let k = choose|k: int| 0 <= k < 7 && n == coop_table_name(k);
            assert(k == 0 || k == 1 || k == 2 || k == 3 || k == 4 || k == 5 || k == 6);
        }
        if t7.contains(n) && !t0.contains(n) {
            if n == coop_table_name(0) {
                assert(coop_table_names().contains(n));
            } else if n == coop_table_name(1) {
                assert(coop_table_names().contains(n));
            } else if n == coop_table_name(2) {
                assert(coop_table_names().contains(n));
            } else if n == coop_table_name(3) {
                assert(coop_table_names().contains(n));
            } else if n == coop_table_name(4) {
                assert(coop_table_names().contains(n));
            } else if n == coop_table_name(5) {
                assert(coop_table_names().contains(n));
            } else {
                assert(n == coop_table_name(6));
                assert(coop_table_names().contains(n));
            }
        }
    }
    assert(t7 =~= t0.union(coop_table_names()));
}

/// Enabling cooperative features twice adds nothing the second time: the
/// identifier row of the first call stays, no other is added, and the
/// tables stay as the first call left them.
pub proof fn law_enabling_cooperation_twice_adds_nothing(
    config: DbiConfigSqlite,
    db: Seq<char>,
    states1: Seq<CoopTables>,
    answers1: Seq<u64>,
    steps1: Seq<DbStep<()>>,
    states2: Seq<CoopTables>,
    answers2: Seq<u64>,
    steps2: Seq<DbStep<()>>,
)
    requires
        is_run(
            |a: Seq<u64>, r: DbStep<()>| enable_cooperative_features_spec(config, db, a, r),
            coop_tables_sem(config, db),
            states1,
            answers1,
            steps1,
        ),
        is_run(
            |a: Seq<u64>, r: DbStep<()>| enable_cooperative_features_spec(config, db, a, r),
            coop_tables_sem(config, db),
            states2,
            answers2,
            steps2,
        ),
        states2[0] == states1.last(),
    ensures
        states1[0].ids.len() == 0 ==> states2.last().ids.len() == 1,
        states2.last() == states1.last(),
{
    law_enabling_cooperation_keeps_one_identifier(config, db, states1, answers1, steps1);
    law_enabling_cooperation_keeps_one_identifier(config, db, states2, answers2, steps2);
    let t = states1.last().tables;
    assert(t.union(coop_table_names()) =~= t);
}

/// The statement that saves host information `(id, name, token)`.
pub open spec fn host_info_insert_view(config: DbiConfigSqlite, id: Seq<char>, name: Seq<char>, token: Seq<u8>) -> DbStatementView {
    rcd_stmt(
        config,
        ADD_HOST_INFO@,
        seq![
            (":id"@, SqlValueView::Text(id)),
            (":name"@, SqlValueView::Text(name)),
            (":token"@, SqlValueView::Blob(token)),
        ],
    )
}

/// The rows of CDS_HOST_INFO, each an identifier, a host name and a token:
/// the count answers their number; saving host information adds a row.
pub open spec fn host_info_sem(config: DbiConfigSqlite) -> spec_fn(
    Seq<(Seq<char>, Seq<char>, Seq<u8>)>,
    DbStatementView,
    u64,
    Seq<(Seq<char>, Seq<char>, Seq<u8>)>,
) -> bool {
    |rows: Seq<(Seq<char>, Seq<char>, Seq<u8>)>, st: DbStatementView, a: u64, t: Seq<(Seq<char>, Seq<char>, Seq<u8>)>|
        {
            &&& st == rcd_stmt(config, HOST_INFO_COUNT@, Seq::empty()) ==> a == rows.len() && t == rows
            &&& forall|id: Seq<char>, name: Seq<char>, token: Seq<u8>|
                st == #[trigger] host_info_insert_view(config, id, name, token) ==> t == rows.push((id, name, token))
            &&& (forall|id: Seq<char>, name: Seq<char>, token: Seq<u8>|
                st != #[trigger] host_info_insert_view(config, id, name, token)) ==> t == rows
        }
}

/// Host information is generated only once, and exists afterwards: where
/// CDS_HOST_INFO is empty one row is saved, with a fresh identifier and the
/// given host name and token; where it has rows they are kept as they are.
/// Either way the operation ends with the statement that reads them.
pub proof fn law_host_info_exists_once_generated(
    config: DbiConfigSqlite,
    host_name: Seq<char>,
    token: Seq<u8>,
    states: Seq<Seq<(Seq<char>, Seq<char>, Seq<u8>)>>,
    answers: Seq<u64>,
    steps: Seq<DbStep<crate::statement::DbStatement>>,
)
    requires
        is_run(
            |a: Seq<u64>, r: DbStep<crate::statement::DbStatement>|
                generate_and_get_host_info_spec(config, host_name, token, a, r),
            host_info_sem(config),
            states,
            answers,
            steps,
        ),
    ensures
        states.last().len() > 0,
        states[0].len() == 0 ==> states.last() =~= seq![(states.last()[0].0, host_name, token)]
            && states.last()[0].0.len() == 36,
        states[0].len() > 0 ==> states.last() == states[0],
        steps.last() matches DbStep::Done(st) && st@ == rcd_stmt(config, GET_HOST_INFO@, Seq::empty()),
        forall|a: u64, t: Seq<(Seq<char>, Seq<char>, Seq<u8>)>|
            #[trigger] host_info_sem(config)(states.last(), rcd_stmt(config, HOST_INFO_COUNT@, Seq::empty()), a, t)
                ==> a > 0,
{
    let sem = host_info_sem(config);
    let count = rcd_stmt(config, HOST_INFO_COUNT@, Seq::empty());
    assert(answers.take(0) =~= Seq::<u64>::empty());
    assert(generate_and_get_host_info_spec(config, host_name, token, answers.take(0), steps[0]));
    assert(answers.len() >= 1);
    assert forall|id: Seq<char>, name: Seq<char>, tk: Seq<u8>|
        count != #[trigger] host_info_insert_view(config, id, name, tk) by {
        assert(host_info_insert_view(config, id, name, tk).params.len() == 3);
    }
    assert(sem(states[0], count, answers[0], states[1]));
    assert(answers[0] == states[0].len() && states[1] == states[0]);
    assert(answers.take(1).len() == 1 && answers.take(1)[0] == answers[0]);
    assert(generate_and_get_host_info_spec(config, host_name, token, answers.take(1), steps[1]));
    if states[0].len() == 0 {
        let st = steps[1]->Execute_0;
        let id = choose|id: Seq<char>|
            id.len() == 36 && st@ == rcd_stmt(
                config,
                ADD_HOST_INFO@,
                seq![
                    (":id"@, SqlValueView::Text(id)),
                    (":name"@, SqlValueView::Text(host_name)),
                    (":token"@, SqlValueView::Blob(token)),
                ],
            );
        assert(st@ == host_info_insert_view(config, id, host_name, token));
        assert(answers.len() >= 2);
        assert(sem(states[1], host_info_insert_view(config, id, host_name, token), answers[1], states[2]));
        assert(states[2] == states[1].push((id, host_name, token)));
        assert(answers.take(2).len() == 2);
        assert(generate_and_get_host_info_spec(config, host_name, token, answers.take(2), steps[2]));
        if answers.len() > 2 {
            assert(step_statement(steps[2]) is Some);
        }
        assert(states.last() == states[2]);
    } else {
        if answers.len() > 1 {
            assert(step_statement(steps[1]) is Some);
        }
        assert(states.last() == states[1]);
    }
}

/// Host information generated a second time, under any host name, is the
/// information of the first time: no row is added, so the first row, which
/// the read returns first, stays the same.
pub proof fn law_host_info_second_call_keeps_it(
    config: DbiConfigSqlite,
    host_name1: Seq<char>,
    token1: Seq<u8>,
    states1: Seq<Seq<(Seq<char>, Seq<char>, Seq<u8>)>>,
    answers1: Seq<u64>,
    steps1: Seq<DbStep<crate::statement::DbStatement>>,
    host_name2: Seq<char>,
    token2: Seq<u8>,
    states2: Seq<Seq<(Seq<char>, Seq<char>, Seq<u8>)>>,
    answers2: Seq<u64>,
    steps2: Seq<DbStep<crate::statement::DbStatement>>,
)
    requires
        is_run(
            |a: Seq<u64>, r: DbStep<crate::statement::DbStatement>|
                generate_and_get_host_info_spec(config, host_name1, token1, a, r),
            host_info_sem(config),
            states1,
            answers1,
            steps1,
        ),
        is_run(
            |a: Seq<u64>, r: DbStep<crate::statement::DbStatement>|
                generate_and_get_host_info_spec(config, host_name2, token2, a, r),
            host_info_sem(config),
            states2,
            answers2,
            steps2,
        ),
        states2[0] == states1.last(),
    ensures
        states2.last() == states1.last(),
        states2.last()[0] == states1.last()[0],
{
    law_host_info_exists_once_generated(config, host_name1, token1, states1, answers1, steps1);
    law_host_info_exists_once_generated(config, host_name2, token2, states2, answers2, steps2);
}

/// The tables of the admin login `login`: the password hashes of its
/// CDS_USER rows, in order, and the number of its CDS_USER_ROLE rows for
/// the SysAdmin role.
pub struct AdminTables {
    pub hashes: Seq<Seq<u8>>,
    pub memberships: nat,
}

/// The parameters of the SysAdmin membership of `login`.
pub open spec fn admin_role_params(login: Seq<char>) -> Seq<(Seq<char>, SqlValueView)> {
    seq![(":username"@, SqlValueView::Text(login)), (":rolename"@, SqlValueView::Text(sysadmin()))]
}

/// The statement that saves the login `login` with the hash `h`.
pub open spec fn add_user_view(config: DbiConfigSqlite, login: Seq<char>, h: Seq<u8>) -> DbStatementView {
    rcd_stmt(config, ADD_USER@, seq![(":username"@, SqlValueView::Text(login)), (":hash"@, SqlValueView::Blob(h))])
}

/// What the statements on the admin's rows answer and do: the login count
/// answers the number of its rows, saving the login adds a row with its
/// hash; the membership count answers the number of memberships, adding
/// the membership adds one.
pub open spec fn admin_sem(config: DbiConfigSqlite, login: Seq<char>) -> spec_fn(
    AdminTables,
    DbStatementView,
    u64,
    AdminTables,
) -> bool {
    |s: AdminTables, st: DbStatementView, a: u64, t: AdminTables|
        {
            let add_role = rcd_stmt(config, ADD_USER_ROLE@, admin_role_params(login));
            &&& st == rcd_stmt(config, HAS_LOGIN@, seq![(":username"@, SqlValueView::Text(login))]) ==> a
                == s.hashes.len() && t == s
            &&& forall|h: Seq<u8>|
                st == #[trigger] add_user_view(config, login, h) ==> t == AdminTables {
                    hashes: s.hashes.push(h),
                    memberships: s.memberships,
                }
            &&& st == rcd_stmt(config, GET_USER_ROLE@, admin_role_params(login)) ==> a == s.memberships && t == s
            &&& st == add_role ==> t == AdminTables { hashes: s.hashes, memberships: s.memberships + 1 }
            &&& (forall|h: Seq<u8>| st != #[trigger] add_user_view(config, login, h)) && st != add_role ==> t == s
        }
}

/// Setting up the admin leaves the login there with the SysAdmin role: a
/// login that was there keeps its rows and stored hash, one that was not is
/// saved with `pw_hash`; the membership is added only where there was none.
pub proof fn law_admin_is_configured(
    config: DbiConfigSqlite,
    login: Seq<char>,
    pw_hash: Seq<u8>,
    states: Seq<AdminTables>,
    answers: Seq<u64>,
    steps: Seq<DbStep<()>>,
)
    requires
        is_run(
            |a: Seq<u64>, r: DbStep<()>| configure_admin_spec(config, login, pw_hash, a, r),
            admin_sem(config, login),
            states,
            answers,
            steps,
        ),
    ensures
        states.last().hashes == (if states[0].hashes.len() == 0 {
            seq![pw_hash]
        } else {
            states[0].hashes
        }),
        states.last().memberships == (if states[0].memberships == 0 {
            1
        } else {
            states[0].memberships
        }),
{
    let sem = admin_sem(config, login);
    let has_login = rcd_stmt(config, HAS_LOGIN@, seq![(":username"@, SqlValueView::Text(login))]);
    let get_role = rcd_stmt(config, GET_USER_ROLE@, admin_role_params(login));
    let add_role = rcd_stmt(config, ADD_USER_ROLE@, admin_role_params(login));
    assert forall|h: Seq<u8>| has_login != #[trigger] add_user_view(config, login, h) by {
        assert(add_user_view(config, login, h).params.len() == 2);
    }
    assert forall|h: Seq<u8>| get_role != #[trigger] add_user_view(config, login, h) by {
        assert(add_user_view(config, login, h).params[1].1 is Blob);
    }
    assert forall|h: Seq<u8>| add_role != #[trigger] add_user_view(config, login, h) by {
        assert(add_user_view(config, login, h).params[1].1 is Blob);
    }
    assert(has_login != add_role) by {
        assert(add_role.params.len() == 2);
    }
    assert(get_role.params.len() == 2);
    assert(answers.take(0) =~= Seq::<u64>::empty());
    assert(configure_admin_spec(config, login, pw_hash, answers.take(0), steps[0]));
    assert(answers.len() >= 1);
    assert(sem(states[0], has_login, answers[0], states[1]));
    assert(answers[0] == states[0].hashes.len() && states[1] == states[0]);
    assert(answers.take(1).len() == 1 && answers.take(1)[0] == answers[0]);
    assert(configure_admin_spec(config, login, pw_hash, answers.take(1), steps[1]));
    // the position of the membership count
    let k: int = if states[0].hashes.len() == 0 {
        2
    } else {
        1
    };
    if states[0].hashes.len() == 0 {
        assert(step_statement(steps[1]) == Some(add_user_view(config, login, pw_hash)));
        assert(answers.len() >= 2);
        assert(sem(states[1], add_user_view(config, login, pw_hash), answers[1], states[2]));
        assert(states[2].hashes == seq![pw_hash]);
        assert(states[2].memberships == states[0].memberships);
    }
    assert(states[k].hashes == (if states[0].hashes.len() == 0 {
        seq![pw_hash]
    } else {
        states[0].hashes
    }));
    assert(states[k].memberships == states[0].memberships);
    assert(answers.take(k).len() == k && answers.take(k)[0] == answers[0]);
    assert(configure_admin_spec(config, login, pw_hash, answers.take(k), steps[k]));
    assert(step_statement(steps[k]) == Some(get_role));
    assert(answers.len() >= k + 1);
    assert(sem(states[k], get_role, answers[k], states[k + 1]));
    assert(answers[k] == states[0].memberships && states[k + 1] == states[k]);
    assert(answers.take(k + 1).len() == k + 1 && answers.take(k + 1)[0] == answers[0]
        && answers.take(k + 1)[k] == answers[k]);
    assert(configure_admin_spec(config, login, pw_hash, answers.take(k + 1), steps[k + 1]));
    if states[0].memberships == 0 {
        assert(step_statement(steps[k + 1]) == Some(add_role));
        assert(answers.len() >= k + 2);
        assert(sem(states[k + 1], add_role, answers[k + 1], states[k + 2]));
        assert(answers.take(k + 2).len() == k + 2 && answers.take(k + 2)[0] == answers[0]
            && answers.take(k + 2)[k] == answers[k]);
        assert(configure_admin_spec(config, login, pw_hash, answers.take(k + 2), steps[k + 2]));
        if answers.len() > k + 2 {
            assert(step_statement(steps[k + 2]) is Some);
        }
        assert(states.last() == states[k + 2]);
    } else {
        if answers.len() > k + 1 {
            assert(step_statement(steps[k + 1]) is Some);
        }
        assert(states.last() == states[k + 1]);
    }
}

/// Setting up the admin a second time adds no row: after the first call
/// the login and its membership are there, so the second leaves the
/// tables as they are.
pub proof fn law_admin_configured_twice_adds_nothing(
    config: DbiConfigSqlite,
    login: Seq<char>,
    pw_hash: Seq<u8>,
    states1: Seq<AdminTables>,
    answers1: Seq<u64>,
    steps1: Seq<DbStep<()>>,
    states2: Seq<AdminTables>,
    answers2: Seq<u64>,
    steps2: Seq<DbStep<()>>,
)
    requires
        is_run(
            |a: Seq<u64>, r: DbStep<()>| configure_admin_spec(config, login, pw_hash, a, r),
            admin_sem(config, login),
            states1,
            answers1,
            steps1,
        ),
        is_run(
            |a: Seq<u64>, r: DbStep<()>| configure_admin_spec(config, login, pw_hash, a, r),
            admin_sem(config, login),
            states2,
            answers2,
            steps2,
        ),
        states2[0] == states1.last(),
    ensures
        states2.last() == states1.last(),
        states2.last().hashes.len() > 0,
        states2.last().memberships > 0,
{
    law_admin_is_configured(config, login, pw_hash, states1, answers1, steps1);
    law_admin_is_configured(config, login, pw_hash, states2, answers2, steps2);
}

/// The tables behind the logical storage policy of one table of a user
/// database: whether the table exists, the number of its COOP_REMOTES
/// records and the policy code they hold, and the identifiers recorded in
/// COOP_DATA_HOST.
pub struct PolicyTables {
    pub has_table: bool,
    pub records: nat,
    pub code: nat,
    pub ids: Seq<Seq<char>>,
}

/// The statement that writes the policy `p` of `table` with the SQL
/// template `sql`.
pub open spec fn policy_write_view(
    config: DbiConfigSqlite,
    db: Seq<char>,
    sql: Seq<char>,
    table: Seq<char>,
    p: LogicalStoragePolicy,
) -> DbStatementView {
    host_stmt(config, db, policy_sql(sql, table, p), Seq::empty())
}

/// What the statements on the policy of `table` answer and do: the table
/// count answers 1 where the table exists and 0 otherwise, the record count
/// the number of records, the policy read their code; adding a record adds
/// one with the code of its policy, changing the records sets their code;
/// recording an identifier adds it.
pub open spec fn policy_sem(config: DbiConfigSqlite, db: Seq<char>, table: Seq<char>) -> spec_fn(
    PolicyTables,
    DbStatementView,
    u64,
    PolicyTables,
) -> bool {
    |s: PolicyTables, st: DbStatementView, a: u64, t: PolicyTables|
        {
            &&& st == host_stmt(config, db, for_table(HAS_TABLE@, table), Seq::empty()) ==> a == (if s.has_table {
                1int
            } else {
                0int
            }) && t == s
            &&& st == host_stmt(config, db, for_table(REMOTES_COUNT_FOR_TABLE@, table), Seq::empty()) ==> a
                == s.records && t == s
            &&& st == host_stmt(config, db, for_table(REMOTES_POLICY_FOR_TABLE@, table), Seq::empty()) ==> a
                == s.code && t == s
            &&& st == data_host_count_view(config, db) ==> a == s.ids.len() && t == s
            &&& forall|p: LogicalStoragePolicy|
                st == #[trigger] policy_write_view(config, db, REMOTES_INSERT_POLICY@, table, p) ==> t
                    == PolicyTables { has_table: s.has_table, records: s.records + 1, code: p.code() as nat, ids: s.ids }
            &&& forall|p: LogicalStoragePolicy|
                st == #[trigger] policy_write_view(config, db, REMOTES_UPDATE_POLICY@, table, p) ==> t
                    == PolicyTables { has_table: s.has_table, records: s.records, code: p.code() as nat, ids: s.ids }
            &&& forall|id: Seq<char>|
                st == #[trigger] id_insert_view(config, db, id) ==> t == PolicyTables {
                    has_table: s.has_table,
                    records: s.records,
                    code: s.code,
                    ids: s.ids.push(id),
                }
            &&& (forall|p: LogicalStoragePolicy|
                st != #[trigger] policy_write_view(config, db, REMOTES_INSERT_POLICY@, table, p) && st
                    != policy_write_view(config, db, REMOTES_UPDATE_POLICY@, table, p)) && (forall|id: Seq<char>|
                st != #[trigger] id_insert_view(config, db, id)) ==> t == s
        }
}

/// A policy set on an existing table is read back by a later lookup: the
/// change succeeds; it adds a record where there was none and otherwise
/// rewrites the records there are, so that one record is left where there
/// was at most one, holding the policy's code; and a lookup run on the
/// tables it leaves gives that policy.
pub proof fn law_policy_set_is_read_back(
    config: DbiConfigSqlite,
    db: Seq<char>,
    table: Seq<char>,
    policy: LogicalStoragePolicy,
    states: Seq<PolicyTables>,
    answers: Seq<u64>,
    steps: Seq<DbStep<Result<bool, RcdDbError>>>,
    lstates: Seq<PolicyTables>,
    lanswers: Seq<u64>,
    lsteps: Seq<DbStep<Result<LogicalStoragePolicy, RcdDbError>>>,
)
    requires
        states[0].has_table,
        is_run(
            |a: Seq<u64>, r: DbStep<Result<bool, RcdDbError>>| set_policy_spec(config, db, table, policy, a, r),
            policy_sem(config, db, table),
            states,
            answers,
            steps,
        ),
        lstates[0] == states.last(),
        is_run(
            |a: Seq<u64>, r: DbStep<Result<LogicalStoragePolicy, RcdDbError>>|
                policy_lookup_spec(config, db, table, a, r),
            policy_sem(config, db, table),
            lstates,
            lanswers,
            lsteps,
        ),
    ensures
        steps.last() matches DbStep::Done(x) && x matches Ok(b) && b,
        states.last().records == (if states[0].records == 0 {
            1
        } else {
            states[0].records
        }),
        states.last().code == policy.code(),
        lsteps.last() matches DbStep::Done(x) && x matches Ok(p) && p == policy,
{
    let sem = policy_sem(config, db, table);
    let has = host_stmt(config, db, for_table(HAS_TABLE@, table), Seq::empty());
    let cnt = host_stmt(config, db, for_table(REMOTES_COUNT_FOR_TABLE@, table), Seq::empty());
    let get = host_stmt(config, db, for_table(REMOTES_POLICY_FOR_TABLE@, table), Seq::empty());
    let ids = data_host_count_view(config, db);
    assert forall|id: Seq<char>|
        has != #[trigger] id_insert_view(config, db, id) && cnt != id_insert_view(config, db, id) && get
            != id_insert_view(config, db, id) && ids != id_insert_view(config, db, id) by {
        assert(id_insert_view(config, db, id).params.len() == 2);
    }
    assert forall|id: Seq<char>, p: LogicalStoragePolicy|
        #[trigger] id_insert_view(config, db, id) != policy_write_view(config, db, REMOTES_INSERT_POLICY@, table, p)
            && id_insert_view(config, db, id) != #[trigger] policy_write_view(
            config,
            db,
            REMOTES_UPDATE_POLICY@,
            table,
            p,
        ) by {
        assert(id_insert_view(config, db, id).params.len() == 2);
    }
    // the change: table count, record count, write
    assert(answers.take(0) =~= Seq::<u64>::empty());
    assert(set_policy_spec(config, db, table, policy, answers.take(0), steps[0]));
    assert(answers.len() >= 1);
    assert(sem(states[0], has, answers[0], states[1]));
    assert(answers[0] == 1 && states[1] == states[0]);
    assert(answers.take(1).len() == 1 && answers.take(1)[0] == answers[0]);
    assert(set_policy_spec(config, db, table, policy, answers.take(1), steps[1]));
    assert(answers.len() >= 2);
    assert(sem(states[1], cnt, answers[1], states[2]));
    assert(answers[1] == states[0].records && states[2] == states[0]);
    assert(answers.take(2).len() == 2 && answers.take(2)[0] == answers[0] && answers.take(2)[1] == answers[1]);
    assert(set_policy_spec(config, db, table, policy, answers.take(2), steps[2]));
    let w = if states[0].records > 0 {
        policy_write_view(config, db, REMOTES_UPDATE_POLICY@, table, policy)
    } else {
        policy_write_view(config, db, REMOTES_INSERT_POLICY@, table, policy)
    };
    assert(step_statement(steps[2]) == Some(w));
    assert(answers.len() >= 3);
    assert(sem(states[2], w, answers[2], states[3]));
    assert(states[3].records == (if states[0].records == 0 {
        1
    } else {
        states[0].records
    }) && states[3].code == policy.code());
    assert(states[3].ids == states[0].ids && states[3].has_table);
    // the identifier of the database
    assert(answers.take(3).len() == 3 && answers.take(3)[0] == answers[0]);
    assert(set_policy_spec(config, db, table, policy, answers.take(3), steps[3]));
    assert(step_statement(steps[3]) == Some(ids));
    assert(answers.len() >= 4);
    assert(sem(states[3], ids, answers[3], states[4]));
    assert(states[4] == states[3]);
    assert(answers.take(4).len() == 4 && answers.take(4)[0] == answers[0] && answers.take(4)[3] == answers[3]);
    assert(set_policy_spec(config, db, table, policy, answers.take(4), steps[4]));
    if answers[3] == 0 {
        let st = steps[4]->Execute_0;
        let id = choose|id: Seq<char>|
            id.len() == 36 && st@ == host_stmt(
                config,
                db,
                ADD_DATABASE_ID_TO_HOST@,
                seq![(":database_id"@, SqlValueView::Text(id)), (":database_name"@, SqlValueView::Text(db))],
            );
        assert(st@ == id_insert_view(config, db, id));
        assert(answers.len() >= 5);
        assert(sem(states[4], id_insert_view(config, db, id), answers[4], states[5]));
        assert(states[5].records == states[4].records && states[5].code == states[4].code
            && states[5].has_table);
        assert(answers.take(5).len() == 5 && answers.take(5)[0] == answers[0] && answers.take(5)[3]
            == answers[3]);
        assert(set_policy_spec(config, db, table, policy, answers.take(5), steps[5]));
        if answers.len() > 5 {
            assert(step_statement(steps[5]) is Some);
        }
        assert(states.last() == states[5]);
    } else {
        if answers.len() > 4 {
            assert(step_statement(steps[4]) is Some);
        }
        assert(states.last() == states[4]);
    }
    let s = states.last();
    assert(s.has_table && s.records >= 1 && s.code == policy.code());
    // the lookup: table count, record count, code
    assert(lanswers.take(0) =~= Seq::<u64>::empty());
    assert(policy_lookup_spec(config, db, table, lanswers.take(0), lsteps[0]));
    assert(lanswers.len() >= 1);
    assert(sem(lstates[0], has, lanswers[0], lstates[1]));
    assert(lanswers[0] == 1 && lstates[1] == s);
    assert(lanswers.take(1).len() == 1 && lanswers.take(1)[0] == lanswers[0]);
    assert(policy_lookup_spec(config, db, table, lanswers.take(1), lsteps[1]));
    assert(lanswers.len() >= 2);
    assert(sem(lstates[1], cnt, lanswers[1], lstates[2]));
    assert(lanswers[1] == s.records && lstates[2] == s);
    assert(lanswers.take(2).len() == 2 && lanswers.take(2)[0] == lanswers[0] && lanswers.take(2)[1]
        == lanswers[1]);
    assert(policy_lookup_spec(config, db, table, lanswers.take(2), lsteps[2]));
    assert(lanswers.len() >= 3);
    assert(sem(lstates[2], get, lanswers[2], lstates[3]));
    assert(lanswers[2] == policy.code());
    assert(lanswers.take(3).len() == 3 && lanswers.take(3)[0] == lanswers[0] && lanswers.take(3)[1]
        == lanswers[1] && lanswers.take(3)[2] == lanswers[2]);
    assert(policy_lookup_spec(config, db, table, lanswers.take(3), lsteps[3]));
    if lanswers.len() > 3 {
        assert(step_statement(lsteps[3]) is Some);
    }
    let p = choose|p: LogicalStoragePolicy|
        lsteps[3] == DbStep::<Result<LogicalStoragePolicy, RcdDbError>>::Done(Ok(p));
    crate::rcd_enum::law_logical_storage_policy_codes(p, policy);
}

/// A contract row with its retired date set to `d`.
pub open spec fn with_retired(c: ContractView, d: Option<Seq<char>>) -> ContractView {
    ContractView {
        contract_id: c.contract_id,
        generated_date: c.generated_date,
        description: c.description,
        retired_date: d,
        version_id: c.version_id,
        remote_delete_behavior: c.remote_delete_behavior,
    }
}

/// Setting a policy on a table that does not exist is refused with
/// TableNotFound and changes no table.
pub proof fn law_policy_on_missing_table_changes_nothing(
    config: DbiConfigSqlite,
    db: Seq<char>,
    table: Seq<char>,
    policy: LogicalStoragePolicy,
    states: Seq<PolicyTables>,
    answers: Seq<u64>,
    steps: Seq<DbStep<Result<bool, RcdDbError>>>,
)
    requires
        !states[0].has_table,
        is_run(
            |a: Seq<u64>, r: DbStep<Result<bool, RcdDbError>>| set_policy_spec(config, db, table, policy, a, r),
            policy_sem(config, db, table),
            states,
            answers,
            steps,
        ),
    ensures
        steps.last() matches DbStep::Done(x) && x matches Err(RcdDbError::TableNotFound(_)),
        states.last() == states[0],
{
    let sem = policy_sem(config, db, table);
    let has = host_stmt(config, db, for_table(HAS_TABLE@, table), Seq::empty());
    assert(answers.take(0) =~= Seq::<u64>::empty());
    assert(set_policy_spec(config, db, table, policy, answers.take(0), steps[0]));
    assert(answers.len() >= 1);
    assert(sem(states[0], has, answers[0], states[1]));
    assert(answers[0] == 0 && states[1] == states[0]);
    assert(answers.take(1).len() == 1 && answers.take(1)[0] == answers[0]);
    assert(set_policy_spec(config, db, table, policy, answers.take(1), steps[1]));
    if answers.len() > 1 {
        assert(step_statement(steps[1]) is Some);
    }
}

/// The number of rows of COOP_DATABASE_CONTRACT with version id `vid`.
/// The rows are seen as the contracts that a read of them gives.
pub open spec fn count_vid(rows: Seq<ContractView>, vid: Seq<char>) -> nat
    decreases rows.len(),
{
    if rows.len() == 0 {
        0
    } else {
        count_vid(rows.drop_last(), vid) + if rows.last().version_id == vid {
            1nat
        } else {
            0nat
        }
    }
}

/// The rows with those of version `vid` retired at the date `d`.
pub open spec fn retire_rows(rows: Seq<ContractView>, d: Seq<char>, vid: Seq<char>) -> Seq<ContractView> {
    Seq::new(
        rows.len(),
        |j: int|
            if rows[j].version_id == vid {
                with_retired(rows[j], Some(d))
            } else {
                rows[j]
            },
    )
}

/// The rows with those of the version of `c` rewritten with the fields of
/// `c`, their retired date kept where `keep_retired` holds.
pub open spec fn rewrite_rows(rows: Seq<ContractView>, c: ContractView, keep_retired: bool) -> Seq<ContractView> {
    Seq::new(
        rows.len(),
        |j: int|
            if rows[j].version_id == c.version_id {
                with_retired(c, if keep_retired { rows[j].retired_date } else { c.retired_date })
            } else {
                rows[j]
            },
    )
}

/// Every active row retired at the date `d`; the others as they are.
pub open spec fn retire_active(rows: Seq<ContractView>, d: Seq<char>) -> Seq<ContractView> {
    Seq::new(
        rows.len(),
        |j: int|
            if rows[j].retired_date is None {
                with_retired(rows[j], Some(d))
            } else {
                rows[j]
            },
    )
}

/// The SQL that saves the contract `c`, as a rewrite of its rows where
/// some are recorded and as a new row otherwise.
pub open spec fn save_sql(c: ContractView, recorded: bool) -> Seq<char> {
    contract_sql(save_template(recorded, c.retired_date is Some), c)
}

/// What saving `c` does to the rows: a rewrite sets the fields of the rows
/// of its version to those of `c` (the retired date only for a retired
/// contract), and a new contract adds a row.
pub open spec fn save_effect(rows: Seq<ContractView>, c: ContractView, recorded: bool) -> Seq<ContractView> {
    if recorded {
        rewrite_rows(rows, c, c.retired_date is None)
    } else {
        rows.push(c)
    }
}

/// What the statements on COOP_DATABASE_CONTRACT of `db` answer and do:
/// the counts and the read answer the number of rows in question; a
/// retirement retires the rows of its version at its date; a save acts as
/// `save_effect` says.
pub open spec fn contract_rows_sem(folder: Seq<char>, db: Seq<char>) -> spec_fn(
    Seq<ContractView>,
    DbStatementView,
    u64,
    Seq<ContractView>,
) -> bool {
    |rows: Seq<ContractView>, st: DbStatementView, a: u64, t: Seq<ContractView>|
        {
            &&& st == stmt(folder, db, CONTRACT_COUNT@, Seq::empty()) ==> a == rows.len() && t == rows
            &&& st == stmt(folder, db, ALL_CONTRACTS@, Seq::empty()) ==> a == rows.len() && t == rows
            &&& forall|vid: Seq<char>|
                st == stmt(folder, db, #[trigger] count_by_version_sql(vid), Seq::empty()) ==> a == count_vid(
                    rows,
                    vid,
                ) && t == rows
            &&& forall|d: Seq<char>, vid: Seq<char>|
                st == stmt(folder, db, #[trigger] retire_sql(d, vid), Seq::empty()) ==> t == retire_rows(
                    rows,
                    d,
                    vid,
                )
            &&& forall|c: ContractView, recorded: bool|
                st == stmt(folder, db, #[trigger] save_sql(c, recorded), Seq::empty()) ==> t == save_effect(
                    rows,
                    c,
                    recorded,
                )
            &&& (forall|d: Seq<char>, vid: Seq<char>|
                st != stmt(folder, db, #[trigger] retire_sql(d, vid), Seq::empty())) && (forall|
                c: ContractView,
                recorded: bool,
            | st != stmt(folder, db, #[trigger] save_sql(c, recorded), Seq::empty())) ==> t == rows
        }
}

/// What a run of contract writes dated `now` does to the rows (see
/// `ops_next`).
pub open spec fn ops_effect(rows: Seq<ContractView>, now: Seq<char>, ops: Seq<ContractOpView>) -> Seq<ContractView>
    decreases ops.len(),
{
    if ops.len() == 0 {
        rows
    } else {
        match ops[0] {
            ContractOpView::Retire(vid) => ops_effect(retire_rows(rows, now, vid), now, ops.drop_first()),
            ContractOpView::Save(c) => ops_effect(
                save_effect(rows, c, count_vid(rows, c.version_id) > 0),
                now,
                ops.drop_first(),
            ),
        }
    }
}

/// A run of contract writes, from outcome `base` on, leaves the rows as
/// `ops_effect` says and finishes with `done`.
proof fn lemma_ops_run<T>(
    folder: Seq<char>,
    db: Seq<char>,
    now: Seq<char>,
    ops: Seq<ContractOpView>,
    done: T,
    states: Seq<Seq<ContractView>>,
    answers: Seq<u64>,
    steps: Seq<DbStep<T>>,
    base: int,
)
    requires
        states.len() == answers.len() + 1,
        steps.len() == answers.len() + 1,
        0 <= base <= answers.len(),
        forall|k: int|
            base <= k <= answers.len() ==> step_follows(
                ops_next(folder, db, now, ops, answers.subrange(base, k)),
                #[trigger] steps[k],
                done,
            ),
        forall|k: int|
            base <= k < answers.len() ==> step_statement(#[trigger] steps[k]) is Some && contract_rows_sem(
                folder,
                db,
            )(states[k], step_statement(steps[k])->0, answers[k], states[k + 1]),
        steps.last() is Done,
    ensures
        states.last() == ops_effect(states[base], now, ops),
        steps.last() == DbStep::<T>::Done(done),
    decreases ops.len(),
{
    let sem = contract_rows_sem(folder, db);
    assert(answers.subrange(base, base) =~= Seq::<u64>::empty());
    assert(step_follows(ops_next(folder, db, now, ops, answers.subrange(base, base)), steps[base], done));
    if ops.len() == 0 {
        if base < answers.len() {
            assert(step_statement(steps[base]) is Some);
        }
        assert(base == answers.len());
    } else {
        match ops[0] {
            ContractOpView::Retire(vid) => {
                let v = stmt(folder, db, retire_sql(now, vid), Seq::empty());
                assert(step_statement(steps[base]) == Some(v));
                assert(base < answers.len());
                assert(sem(states[base], v, answers[base], states[base + 1]));
                assert(states[base + 1] == retire_rows(states[base], now, vid));
                assert forall|k: int| base + 1 <= k <= answers.len() implies step_follows(
                    ops_next(folder, db, now, ops.drop_first(), answers.subrange(base + 1, k)),
                    #[trigger] steps[k],
                    done,
                ) by {
                    assert(step_follows(ops_next(folder, db, now, ops, answers.subrange(base, k)), steps[k], done));
                    assert(answers.subrange(base, k).drop_first() =~= answers.subrange(base + 1, k));
                }
                lemma_ops_run(folder, db, now, ops.drop_first(), done, states, answers, steps, base + 1);
            },
            ContractOpView::Save(c) => {
                let q = stmt(folder, db, count_by_version_sql(c.version_id), Seq::empty());
                assert(step_statement(steps[base]) == Some(q));
                assert(base < answers.len());
                assert(sem(states[base], q, answers[base], states[base + 1]));
                assert(answers[base] == count_vid(states[base], c.version_id));
                assert(states[base + 1] == states[base]);
                let sub1 = answers.subrange(base, base + 1);
                assert(sub1.len() == 1 && sub1[0] == answers[base]);
                assert(step_follows(ops_next(folder, db, now, ops, sub1), steps[base + 1], done));
                let recorded = answers[base] > 0;
                let w = stmt(folder, db, save_sql(c, recorded), Seq::empty());
                assert(step_statement(steps[base + 1]) == Some(w));
                assert(base + 1 < answers.len());
                assert(sem(states[base + 1], w, answers[base + 1], states[base + 2]));
                assert(states[base + 2] == save_effect(states[base], c, count_vid(states[base], c.version_id) > 0));
                assert forall|k: int| base + 2 <= k <= answers.len() implies step_follows(
                    ops_next(folder, db, now, ops.drop_first(), answers.subrange(base + 2, k)),
                    #[trigger] steps[k],
                    done,
                ) by {
                    assert(step_follows(ops_next(folder, db, now, ops, answers.subrange(base, k)), steps[k], done));
                    assert(answers.subrange(base, k).subrange(2, k - base) =~= answers.subrange(base + 2, k));
                }
                lemma_ops_run(folder, db, now, ops.drop_first(), done, states, answers, steps, base + 2);
            },
        }
    }
}

/// Writes run one after the other.
proof fn lemma_ops_effect_concat(
    rows: Seq<ContractView>,
    now: Seq<char>,
    a: Seq<ContractOpView>,
    b: Seq<ContractOpView>,
)
    ensures
        ops_effect(rows, now, a + b) == ops_effect(ops_effect(rows, now, a), now, b),
    decreases a.len(),
{
    if a.len() == 0 {
        assert(a + b =~= b);
    } else {
        assert((a + b).drop_first() =~= a.drop_first() + b);
        assert((a + b)[0] == a[0]);
        match a[0] {
            ContractOpView::Retire(vid) => {
                lemma_ops_effect_concat(retire_rows(rows, now, vid), now, a.drop_first(), b);
            },
            ContractOpView::Save(c) => {
                lemma_ops_effect_concat(
                    save_effect(rows, c, count_vid(rows, c.version_id) > 0),
                    now,
                    a.drop_first(),
                    b,
                );
            },
        }
    }
}

/// A version is counted where a row has it, and only there.
proof fn lemma_count_vid(rows: Seq<ContractView>, vid: Seq<char>)
    ensures
        count_vid(rows, vid) > 0 <==> exists|j: int| 0 <= j < rows.len() && rows[j].version_id == vid,
    decreases rows.len(),
{
    if rows.len() > 0 {
        let p = rows.drop_last();
        lemma_count_vid(p, vid);
        if count_vid(p, vid) > 0 {
            let j = choose|j: int| 0 <= j < p.len() && p[j].version_id == vid;
            assert(rows[j] == p[j]);
        }
        if exists|j: int| 0 <= j < rows.len() && rows[j].version_id == vid {
            let j = choose|j: int| 0 <= j < rows.len() && rows[j].version_id == vid;
            if j < rows.len() - 1 {
                assert(p[j] == rows[j]);
            }
        }
    }
}

/// No two rows share a version id.
pub open spec fn distinct_versions(rows: Seq<ContractView>) -> bool {
    forall|j: int, k: int| 0 <= j < k < rows.len() ==> (#[trigger] rows[j]).version_id != (#[trigger] rows[k]).version_id
}

/// Some active contract of `ex` has version `vid`.
pub open spec fn active_vid(ex: Seq<ContractView>, vid: Seq<char>) -> bool {
    exists|m: int| 0 <= m < ex.len() && ex[m].retired_date is None && #[trigger] ex[m].version_id == vid
}

/// The rows with those of every active version of `ex` retired at `d`.
pub open spec fn marked(rows: Seq<ContractView>, d: Seq<char>, ex: Seq<ContractView>) -> Seq<ContractView> {
    Seq::new(
        rows.len(),
        |j: int|
            if rows[j].retired_date is None && active_vid(ex, rows[j].version_id) {
                with_retired(rows[j], Some(d))
            } else {
                rows[j]
            },
    )
}

/// Retiring and saving again the active contracts among the first `i` of
/// the rows, as a read gives them, retires those rows at `now` and changes
/// nothing else.
proof fn lemma_retire_ops_effect(rows: Seq<ContractView>, now: Seq<char>, i: int)
    requires
        distinct_versions(rows),
        0 <= i <= rows.len(),
    ensures
        ops_effect(rows, now, retire_ops(rows.take(i))) == marked(rows, now, rows.take(i)),
    decreases i,
{
    let ex = rows.take(i);
    if i == 0 {
        assert(ex =~= Seq::<ContractView>::empty());
        assert(marked(rows, now, ex) =~= rows);
    } else {
        lemma_retire_ops_effect(rows, now, i - 1);
        let pre = rows.take(i - 1);
        assert(ex.drop_last() =~= pre);
        assert(ex.last() == rows[i - 1]);
        let c = rows[i - 1];
        let m = marked(rows, now, pre);
        let tail: Seq<ContractOpView> = if c.retired_date is None {
            seq![ContractOpView::Retire(c.version_id), ContractOpView::Save(c)]
        } else {
            Seq::empty()
        };
        assert(retire_ops(ex) == retire_ops(pre) + tail);
        lemma_ops_effect_concat(rows, now, retire_ops(pre), tail);
        assert forall|v: Seq<char>| #[trigger] active_vid(ex, v) <==> active_vid(pre, v) || (c.retired_date is None
            && c.version_id == v) by {
            if active_vid(pre, v) {
                let k = choose|k: int| 0 <= k < pre.len() && pre[k].retired_date is None && #[trigger] pre[k].version_id == v;
                assert(ex[k] == pre[k]);
            }
            if c.retired_date is None && c.version_id == v {
                assert(ex[i - 1] == c);
            }
            if active_vid(ex, v) {
                let k = choose|k: int| 0 <= k < ex.len() && ex[k].retired_date is None && #[trigger] ex[k].version_id == v;
                if k < i - 1 {
                    assert(pre[k] == ex[k]);
                }
            }
        }
        // the row of version `c.version_id` is row i - 1 alone, not yet retired
        assert(!active_vid(pre, c.version_id)) by {
            if active_vid(pre, c.version_id) {
                let k = choose|k: int| 0 <= k < pre.len() && pre[k].retired_date is None && #[trigger] pre[k].version_id == c.version_id;
                assert(rows[k] == pre[k]);
            }
        }
        if c.retired_date is None {
            let r = retire_rows(m, now, c.version_id);
            assert(tail.drop_first() =~= seq![ContractOpView::Save(c)]);
            assert(tail.drop_first().drop_first() =~= Seq::<ContractOpView>::empty());
            assert(r[i - 1].version_id == c.version_id);
            lemma_count_vid(r, c.version_id);
            assert(count_vid(r, c.version_id) > 0);
            assert(tail[0] == ContractOpView::Retire(c.version_id));
            assert(ops_effect(m, now, tail) == ops_effect(r, now, tail.drop_first()));
            assert(tail.drop_first()[0] == ContractOpView::Save(c));
            assert(ops_effect(r, now, tail.drop_first()) == ops_effect(
                save_effect(r, c, count_vid(r, c.version_id) > 0),
                now,
                tail.drop_first().drop_first(),
            ));
            let w = rewrite_rows(r, c, true);
            assert(ops_effect(m, now, tail) == w);
            assert forall|j: int| 0 <= j < rows.len() implies #[trigger] w[j] == marked(rows, now, ex)[j] by {
                if j != i - 1 {
                    assert(rows[j].version_id != c.version_id);
                }
            }
            assert(w =~= marked(rows, now, ex));
        } else {
            assert(ops_effect(m, now, tail) == m);
            assert(m =~= marked(rows, now, ex));
        }
    }
}

/// Generating a contract leaves exactly one active contract, the new one:
/// every row active before is retired at the date `now` and otherwise kept
/// as it was, every other row is kept, and the new contract, with its
/// description and delete behavior, is the one row added. The rows are
/// what a read of them gives (`existing`), no two share a version id, and
/// the new contract's version is not among them.
pub proof fn law_generated_contract_is_the_only_active_one(
    folder: Seq<char>,
    db: Seq<char>,
    policies: Seq<(String, LogicalStoragePolicy)>,
    existing: Seq<ContractView>,
    new_c: ContractView,
    now: Seq<char>,
    states: Seq<Seq<ContractView>>,
    answers: Seq<u64>,
    steps: Seq<DbStep<Result<bool, RcdGenerateContractError>>>,
)
    requires
        !some_policy_missing(policies),
        new_c.retired_date is None,
        forall|j: int| 0 <= j < states[0].len() ==> (#[trigger] states[0][j]).version_id != new_c.version_id,
        distinct_versions(states[0]),
        states[0].len() > 0 ==> existing == states[0],
        is_run(
            |a: Seq<u64>, r: DbStep<Result<bool, RcdGenerateContractError>>|
                generate_contract_spec(folder, db, policies, existing, new_c, now, a, r),
            contract_rows_sem(folder, db),
            states,
            answers,
            steps,
        ),
    ensures
        steps.last() matches DbStep::Done(x) && x matches Ok(b) && b,
        states.last() == retire_active(states[0], now).push(new_c),
        forall|j: int|
            0 <= j < states.last().len() ==> ((#[trigger] states.last()[j]).retired_date is None <==> j
                == states[0].len()),
{
    let sem = contract_rows_sem(folder, db);
    let rows = states[0];
    let done: Result<bool, RcdGenerateContractError> = Ok(true);
    let count = stmt(folder, db, CONTRACT_COUNT@, Seq::empty());
    assert(answers.take(0) =~= Seq::<u64>::empty());
    assert(generate_contract_spec(folder, db, policies, existing, new_c, now, answers.take(0), steps[0]));
    assert(answers.len() >= 1);
    assert(sem(states[0], count, answers[0], states[1]));
    assert(answers[0] == rows.len() && states[1] == rows);
    let save_new = seq![ContractOpView::Save(new_c)];
    let ra = retire_active(rows, now);
    assert forall|j: int| 0 <= j < rows.len() implies #[trigger] ra[j].version_id != new_c.version_id by {
        assert(rows[j].version_id != new_c.version_id);
    }
    if rows.len() == 0 {
        assert forall|k: int| 1 <= k <= answers.len() implies step_follows(
            ops_next(folder, db, now, save_new, answers.subrange(1, k)),
            #[trigger] steps[k],
            done,
        ) by {
            assert(answers.take(k)[0] == answers[0]);
            assert(generate_contract_spec(folder, db, policies, existing, new_c, now, answers.take(k), steps[k]));
            assert(answers.take(k).drop_first() =~= answers.subrange(1, k));
        }
        lemma_ops_run(folder, db, now, save_new, done, states, answers, steps, 1);
        assert(save_new.drop_first() =~= Seq::<ContractOpView>::empty());
        assert(count_vid(rows, new_c.version_id) == 0);
        assert(ops_effect(rows, now, save_new) == ops_effect(
            save_effect(rows, new_c, false),
            now,
            save_new.drop_first(),
        ));
        assert(ra =~= rows);
        assert(states.last() == rows.push(new_c));
    } else {
        assert(answers.take(1).len() == 1 && answers.take(1)[0] == answers[0]);
        assert(generate_contract_spec(folder, db, policies, existing, new_c, now, answers.take(1), steps[1]));
        let read = stmt(folder, db, ALL_CONTRACTS@, Seq::empty());
        assert(step_statement(steps[1]) == Some(read));
        assert(answers.len() >= 2);
        assert(sem(states[1], read, answers[1], states[2]));
        assert(states[2] == rows);
        let ops = replace_ops(existing, new_c);
        assert forall|k: int| 2 <= k <= answers.len() implies step_follows(
            ops_next(folder, db, now, ops, answers.subrange(2, k)),
            #[trigger] steps[k],
            done,
        ) by {
            assert(answers.take(k)[0] == answers[0]);
            assert(generate_contract_spec(folder, db, policies, existing, new_c, now, answers.take(k), steps[k]));
            assert(answers.take(k).subrange(2, k) =~= answers.subrange(2, k));
        }
        lemma_ops_run(folder, db, now, ops, done, states, answers, steps, 2);
        assert(ops =~= retire_ops(rows) + save_new);
        lemma_ops_effect_concat(rows, now, retire_ops(rows), save_new);
        assert(rows.take(rows.len() as int) =~= rows);
        lemma_retire_ops_effect(rows, now, rows.len() as int);
        let m = marked(rows, now, rows);
        assert forall|j: int| 0 <= j < rows.len() implies #[trigger] m[j] == ra[j] by {
            if rows[j].retired_date is None {
                assert(active_vid(rows, rows[j].version_id));
            }
        }
        assert(m =~= ra);
        assert(save_new.drop_first() =~= Seq::<ContractOpView>::empty());
        lemma_count_vid(m, new_c.version_id);
        assert(count_vid(m, new_c.version_id) == 0);
        assert(ops_effect(m, now, save_new) == ops_effect(save_effect(m, new_c, false), now, save_new.drop_first()));
        assert(states.last() == m.push(new_c));
    }
    let last = states.last();
    assert(last == ra.push(new_c));
    assert forall|j: int| 0 <= j < last.len() implies ((#[trigger] last[j]).retired_date is None <==> j
        == rows.len()) by {
        if j < rows.len() {
            assert(last[j] == ra[j]);
        }
    }
}

} // verus!
