//! The participants of a user database, as its host records them in
//! COOP_PARTICIPANT: how one is saved, read back from a row, and marked as
//! having accepted a contract.
//!
//! Identifiers are held as the 36 characters of a GUID's text.
use vstd::prelude::*;

use crate::dbi::DbiConfigSqlite;
use crate::guid::{canonical_guid, is_guid_pattern, upper_guid};
use crate::rcd_enum::ContractStatus;
use crate::sql_text::{ADD_PARTICIPANT, DATA_HASH, PARTICIPANT_COUNT};
use crate::sqlite_store::{partial_db_file_name, partial_file_name};
use crate::statement::{
    blob_param, int_param, plain_statement, stmt, text_param, with_param, DbStatement, DbStep,
    SqlValueView,
};
use crate::query_parser::texts;
use crate::text::{decimal, replace, spec_replace, text_eq, u32_to_text};

verus! {

/// The statement that rewrites the participant with an alias.
pub const UPDATE_PARTICIPANT: &'static str = "
        UPDATE COOP_PARTICIPANT
        SET
            IP4ADDRESS = ':ip4addr',
            IP6ADDRESS = ':ip6addr',
            PORT = ':db_port',
            CONTRACT_STATUS = ':contract_status',
            ACCEPTED_CONTRACT_VERSION_ID = ':accepted_contract_version',
            TOKEN = ':token',
            PARTICIPANT_ID = ':id'
        WHERE
            ALIAS = ':alias'
        ;
        ";

/// The statement that records that a participant accepted a contract.
pub const ACCEPT_CONTRACT: &'static str = "
    UPDATE 
        COOP_PARTICIPANT
    SET 
        CONTRACT_STATUS = 3, 
        ACCEPTED_CONTRACT_VERSION_ID = :cid,
        PARTICIPANT_ID = :pid,
        TOKEN = :token
    WHERE 
        INTERNAL_PARTICIPANT_ID = :iid
    ;
    ";

/// A participant of a user database, as its host records it.
#[derive(Debug)]
pub struct CoopDatabaseParticipant {
    pub internal_id: String,
    pub alias: String,
    pub ip4addr: String,
    pub ip6addr: String,
    pub db_port: u32,
    pub contract_status: ContractStatus,
    pub accepted_contract_version: String,
    pub token: Vec<u8>,
    pub id: String,
}

/// The statement text that counts the participants with alias `alias`.
pub open spec fn participant_count_sql(alias: Seq<char>) -> Seq<char> {
    spec_replace(PARTICIPANT_COUNT@, ":alias"@, alias)
}

/// The parameters of the statement that rewrites a participant.
pub open spec fn update_params(p: CoopDatabaseParticipant) -> Seq<(Seq<char>, SqlValueView)> {
    seq![
        (":ip4addr"@, SqlValueView::Text(p.ip4addr@)),
        (":ip6addr"@, SqlValueView::Text(p.ip6addr@)),
        (":db_port"@, SqlValueView::Text(decimal(p.db_port as nat))),
        (":contract_status"@, SqlValueView::Int(p.contract_status.code())),
        (":accepted_contract_version"@, SqlValueView::Text(p.accepted_contract_version@)),
        (":token"@, SqlValueView::Blob(p.token@)),
        (":id"@, SqlValueView::Text(p.id@)),
        (":alias"@, SqlValueView::Text(p.alias@)),
    ]
}

/// The parameters of the statement that records a new participant.
pub open spec fn insert_params(p: CoopDatabaseParticipant) -> Seq<(Seq<char>, SqlValueView)> {
    seq![
        (":internal_id"@, SqlValueView::Text(p.internal_id@)),
        (":alias"@, SqlValueView::Text(p.alias@)),
        (":ip4addr"@, SqlValueView::Text(p.ip4addr@)),
        (":ip6addr"@, SqlValueView::Text(p.ip6addr@)),
        (":db_port"@, SqlValueView::Text(decimal(p.db_port as nat))),
        (":contract_status"@, SqlValueView::Int(p.contract_status.code())),
        (":accepted_contract_version"@, SqlValueView::Text(p.accepted_contract_version@)),
        (":token"@, SqlValueView::Blob(p.token@)),
        (":id"@, SqlValueView::Text(p.id@)),
    ]
}

/// The steps of saving a participant to the user database `db` (in the
/// folder `folder`): count the participants with its alias; then rewrite
/// it if there is one, or record it otherwise.
pub open spec fn save_participant_spec(
    folder: Seq<char>,
    db: Seq<char>,
    p: CoopDatabaseParticipant,
    answers: Seq<u64>,
    r: DbStep<()>,
) -> bool {
    if answers.len() == 0 {
        r matches DbStep::Query(st) && st@ == stmt(folder, db, participant_count_sql(p.alias@), Seq::empty())
    } else if answers.len() == 1 {
        r matches DbStep::Execute(st) && st@ == (if answers[0] > 0 {
            stmt(folder, db, UPDATE_PARTICIPANT@, update_params(p))
        } else {
            stmt(folder, db, ADD_PARTICIPANT@, insert_params(p))
        })
    } else {
        r == DbStep::<()>::Done(())
    }
}

/// The statement that counts the participants with alias `alias`.
pub fn participant_count(db_name: &str, alias: &str, config: &DbiConfigSqlite) -> (r: DbStatement)
    ensures
        r@ == stmt(config.root_folder@, db_name@, participant_count_sql(alias@), Seq::empty()),
{
    proof {
        reveal_strlit(":alias");
    }
    let cmd = replace(PARTICIPANT_COUNT, ":alias", alias);
    plain_statement(config.root_folder.as_str(), db_name, cmd.as_str())
}

fn update_statement(db_name: &str, p: &CoopDatabaseParticipant, config: &DbiConfigSqlite) -> (r:
    DbStatement)
    ensures
        r@ == stmt(config.root_folder@, db_name@, UPDATE_PARTICIPANT@, update_params(*p)),
{
    let port = u32_to_text(p.db_port);
    let status = ContractStatus::to_u32(p.contract_status);
    let st = plain_statement(config.root_folder.as_str(), db_name, UPDATE_PARTICIPANT);
    let st = with_param(st, text_param(":ip4addr", p.ip4addr.as_str()));
    let st = with_param(st, text_param(":ip6addr", p.ip6addr.as_str()));
    let st = with_param(st, text_param(":db_port", port.as_str()));
    let st = with_param(st, int_param(":contract_status", status as i64));
    let st = with_param(st, text_param(":accepted_contract_version", p.accepted_contract_version.as_str()));
    let st = with_param(st, blob_param(":token", p.token.clone()));
    let st = with_param(st, text_param(":id", p.id.as_str()));
    let r = with_param(st, text_param(":alias", p.alias.as_str()));
    assert(r@.params =~= update_params(*p));
    r
}

fn insert_statement(db_name: &str, p: &CoopDatabaseParticipant, config: &DbiConfigSqlite) -> (r:
    DbStatement)
    ensures
        r@ == stmt(config.root_folder@, db_name@, ADD_PARTICIPANT@, insert_params(*p)),
{
    let port = u32_to_text(p.db_port);
    let status = ContractStatus::to_u32(p.contract_status);
    let st = plain_statement(config.root_folder.as_str(), db_name, ADD_PARTICIPANT);
    let st = with_param(st, text_param(":internal_id", p.internal_id.as_str()));
    let st = with_param(st, text_param(":alias", p.alias.as_str()));
    let st = with_param(st, text_param(":ip4addr", p.ip4addr.as_str()));
    let st = with_param(st, text_param(":ip6addr", p.ip6addr.as_str()));
    let st = with_param(st, text_param(":db_port", port.as_str()));
    let st = with_param(st, int_param(":contract_status", status as i64));
    let st = with_param(st, text_param(":accepted_contract_version", p.accepted_contract_version.as_str()));
    let st = with_param(st, blob_param(":token", p.token.clone()));
    let r = with_param(st, text_param(":id", p.id.as_str()));
    assert(r@.params =~= insert_params(*p));
    r
}

/// Saves a participant to the user database `db_name`: the next step,
/// given the outcomes of the steps taken so far (see
/// `save_participant_spec`).
pub fn save_participant(
    db_name: &str,
    participant: &CoopDatabaseParticipant,
    config: &DbiConfigSqlite,
    answers: &Vec<u64>,
) -> (r: DbStep<()>)
    ensures
        save_participant_spec(config.root_folder@, db_name@, *participant, answers@, r),
{
    if answers.len() == 0 {
        DbStep::Query(participant_count(db_name, participant.alias.as_str(), config))
    } else if answers.len() == 1 {
        if answers[0] > 0 {
            DbStep::Execute(update_statement(db_name, participant, config))
        } else {
            DbStep::Execute(insert_statement(db_name, participant, config))
        }
    } else {
        DbStep::Done(())
    }
}

/// The participant read from a row of COOP_PARTICIPANT, or none where the
/// row cannot stand for one: where one of its three identifiers is not the
/// text of a GUID, or its contract status is above 4. The identifiers are
/// kept with their letters made uppercase.
pub fn participant_from_row(
    internal_id: &str,
    alias: String,
    ip4addr: String,
    ip6addr: String,
    port: u32,
    contract_status: u32,
    accepted_contract_version_id: &str,
    token: Vec<u8>,
    id: &str,
) -> (r: Option<CoopDatabaseParticipant>)
    ensures
        r is Some <==> (is_guid_pattern(internal_id@) && is_guid_pattern(accepted_contract_version_id@)
            && is_guid_pattern(id@) && contract_status <= 4),
        r matches Some(p) ==> {
            &&& p.internal_id@ == upper_guid(internal_id@)
            &&& p.alias == alias
            &&& p.ip4addr == ip4addr
            &&& p.ip6addr == ip6addr
            &&& p.db_port == port
            &&& p.contract_status.code() == contract_status
            &&& p.accepted_contract_version@ == upper_guid(accepted_contract_version_id@)
            &&& p.token == token
            &&& p.id@ == upper_guid(id@)
        },
{
    let iid = canonical_guid(internal_id);
    let acv = canonical_guid(accepted_contract_version_id);
    let pid = canonical_guid(id);
    match (iid, acv, pid) {
        (Some(i), Some(a), Some(d)) => {
            if contract_status > 4 {
                return None;
            }
            Some(
                CoopDatabaseParticipant {
                    internal_id: i,
                    alias,
                    ip4addr,
                    ip6addr,
                    db_port: port,
                    contract_status: ContractStatus::from_u32(contract_status),
                    accepted_contract_version: a,
                    token,
                    id: d,
                },
            )
        },
        _ => None,
    }
}

/// The participant a lookup keeps: the first one read. A lookup that read
/// none is refused.
pub fn first_participant(found: Vec<CoopDatabaseParticipant>) -> (r: CoopDatabaseParticipant)
    requires
        found@.len() > 0,
    ensures
        r == found@[0],
{
    let mut v = found;
    v.swap_remove(0)
}

/// The parameters of the statement that records that the participant
/// `internal_id` accepted the contract version `cid`, under the participant
/// id `pid` and the token `token`.
pub open spec fn accept_params(cid: Seq<char>, pid: Seq<char>, token: Seq<u8>, internal_id: Seq<char>) -> Seq<
    (Seq<char>, SqlValueView),
> {
    seq![
        (":cid"@, SqlValueView::Text(cid)),
        (":pid"@, SqlValueView::Text(pid)),
        (":token"@, SqlValueView::Blob(token)),
        (":iid"@, SqlValueView::Text(internal_id)),
    ]
}

/// The statement that records that `participant` accepted the contract
/// version `accepted_contract_version_id`, with the participant id and the
/// token it sent (`participant_guid`, `token`); the contract status becomes
/// Accepted. Its outcome, the number of rows changed, tells whether it was
/// recorded (see `statement::has_any_rows`).
pub fn update_participant_accepts_contract(
    db_name: &str,
    participant: &CoopDatabaseParticipant,
    participant_guid: &str,
    token: &Vec<u8>,
    accepted_contract_version_id: &str,
    config: &DbiConfigSqlite,
) -> (r: DbStatement)
    ensures
        r@ == stmt(
            config.root_folder@,
            db_name@,
            ACCEPT_CONTRACT@,
            accept_params(accepted_contract_version_id@, participant_guid@, token@, participant.internal_id@),
        ),
{
    let st = plain_statement(config.root_folder.as_str(), db_name, ACCEPT_CONTRACT);
    let st = with_param(st, text_param(":cid", accepted_contract_version_id));
    let st = with_param(st, text_param(":pid", participant_guid));
    let st = with_param(st, blob_param(":token", token.clone()));
    let r = with_param(st, text_param(":iid", participant.internal_id.as_str()));
    assert(r@.params =~= accept_params(
        accepted_contract_version_id@,
        participant_guid@,
        token@,
        participant.internal_id@,
    ));
    r
}

/// The statement that reads the participant with an internal id.
pub const GET_PARTICIPANT_BY_INTERNAL_ID: &'static str = "
        SELECT 
            INTERNAL_PARTICIPANT_ID,
            ALIAS,
            IP4ADDRESS,
            IP6ADDRESS,
            PORT,
            CONTRACT_STATUS,
            ACCEPTED_CONTRACT_VERSION_ID,
            TOKEN,
            PARTICIPANT_ID
        FROM
            COOP_PARTICIPANT
        WHERE
            INTERNAL_PARTICIPANT_ID = :pid
        ;
        ";

/// The statement that reads the participant with internal id
/// `internal_id`.
pub fn get_participant_by_internal_id(db_name: &str, internal_id: &str, config: &DbiConfigSqlite) -> (r:
    DbStatement)
    ensures
        r@ == stmt(
            config.root_folder@,
            db_name@,
            GET_PARTICIPANT_BY_INTERNAL_ID@,
            seq![(":pid"@, SqlValueView::Text(internal_id@))],
        ),
{
    let st = plain_statement(config.root_folder.as_str(), db_name, GET_PARTICIPANT_BY_INTERNAL_ID);
    with_param(st, text_param(":pid", internal_id))
}

/// The statement that reads every row of the metadata table
/// `metadata_table`: the participant's internal id, the row id and the
/// row's hash.
pub const METADATA_ROWS: &'static str = "
        SELECT 
            INTERNAL_PARTICIPANT_ID,
            ROW_ID, 
            HASH
        FROM 
            :table_name
        ;";

/// The statement that reads the rows of the metadata table
/// `metadata_table` of `db_name` (see `METADATA_ROWS`).
pub fn metadata_rows_of_table(db_name: &str, metadata_table: &str, config: &DbiConfigSqlite) -> (r:
    DbStatement)
    ensures
        r@ == stmt(
            config.root_folder@,
            db_name@,
            spec_replace(METADATA_ROWS@, ":table_name"@, metadata_table@),
            Seq::empty(),
        ),
{
    proof {
        reveal_strlit(":table_name");
    }
    let cmd = replace(METADATA_ROWS, ":table_name", metadata_table);
    plain_statement(config.root_folder.as_str(), db_name, cmd.as_str())
}

/// A row of a metadata table: the internal id of the participant that
/// holds the row, the row id and the row's hash.
pub type MetadataRow = (String, u32, Vec<u8>);

/// The internal ids that the metadata rows name, each once, in the order
/// of their first row.
pub open spec fn distinct_ids(m: Seq<MetadataRow>) -> Seq<Seq<char>>
    decreases m.len(),
{
    if m.len() == 0 {
        Seq::empty()
    } else {
        let d = distinct_ids(m.drop_last());
        if d.contains(m.last().0@) {
            d
        } else {
            d.push(m.last().0@)
        }
    }
}

/// The row ids and hashes of the metadata rows of participant `id`, in
/// order.
pub open spec fn rows_of_id(m: Seq<MetadataRow>, id: Seq<char>) -> Seq<(u32, Seq<u8>)>
    decreases m.len(),
{
    if m.len() == 0 {
        Seq::empty()
    } else if m.last().0@ == id {
        rows_of_id(m.drop_last(), id).push((m.last().1, m.last().2@))
    } else {
        rows_of_id(m.drop_last(), id)
    }
}

/// The row data as plain values.
pub open spec fn row_data_view(d: Seq<(u32, Vec<u8>)>) -> Seq<(u32, Seq<u8>)> {
    d.map_values(|p: (u32, Vec<u8>)| (p.0, p.1@))
}

/// The distinct ids name each id of the metadata once, and nothing else.
pub proof fn lemma_distinct_ids(m: Seq<MetadataRow>)
    ensures
        distinct_ids(m).no_duplicates(),
        forall|j: int| 0 <= j < m.len() ==> distinct_ids(m).contains(#[trigger] m[j].0@),
        forall|i: int|
            0 <= i < distinct_ids(m).len() ==> exists|j: int|
                0 <= j < m.len() && m[j].0@ == #[trigger] distinct_ids(m)[i],
    decreases m.len(),
{
    if m.len() > 0 {
        let p = m.drop_last();
        lemma_distinct_ids(p);
        let d = distinct_ids(p);
        assert forall|j: int| 0 <= j < m.len() implies distinct_ids(m).contains(#[trigger] m[j].0@) by {
            if j < m.len() - 1 {
                assert(p[j] == m[j]);
                assert(d.contains(p[j].0@));
                if !d.contains(m.last().0@) {
                    let k = choose|k: int| 0 <= k < d.len() && d[k] == p[j].0@;
                    assert(d.push(m.last().0@)[k] == d[k]);
                }
            } else if !d.contains(m.last().0@) {
                assert(d.push(m.last().0@)[d.len() as int] == m.last().0@);
            }
        }
        assert forall|i: int| 0 <= i < distinct_ids(m).len() implies exists|j: int|
            0 <= j < m.len() && m[j].0@ == #[trigger] distinct_ids(m)[i] by {
            if i < d.len() {
                let j = choose|j: int| 0 <= j < p.len() && p[j].0@ == d[i];
                assert(m[j] == p[j]);
            } else {
                assert(m[m.len() - 1] == m.last());
            }
        }
    }
}

/// Whether the text `t` is among the strings of `v`.
fn has_text(v: &Vec<String>, t: &str) -> (r: bool)
    ensures
        r == texts(v@).contains(t@),
{
    let mut k: usize = 0;
    while k < v.len()
        invariant
            k <= v@.len(),
            forall|j: int| 0 <= j < k ==> v@[j]@ != t@,
        decreases v.len() - k,
    {
        if text_eq(v[k].as_str(), t) {
            assert(texts(v@)[k as int] == t@);
            return true;
        }
        k = k + 1;
    }
    assert forall|j: int| 0 <= j < texts(v@).len() implies texts(v@)[j] != t@ by {
        assert(texts(v@)[j] == v@[j]@);
    }
    false
}

/// The internal ids of the participants that hold rows of a table, each
/// once, in the order of their first metadata row (see `distinct_ids`).
pub fn distinct_participant_ids(metadata: &Vec<MetadataRow>) -> (r: Vec<String>)
    ensures
        texts(r@) == distinct_ids(metadata@),
        texts(r@).no_duplicates(),
{
    let mut out: Vec<String> = Vec::new();
    let mut k: usize = 0;
    assert(metadata@.take(0) =~= Seq::<MetadataRow>::empty());
    assert(texts(out@) =~= Seq::<Seq<char>>::empty());
    while k < metadata.len()
        invariant
            k <= metadata@.len(),
            texts(out@) == distinct_ids(metadata@.take(k as int)),
        decreases metadata.len() - k,
    {
        let ghost before = texts(out@);
        let id = metadata[k].0.as_str();
        assert(metadata@.take(k + 1).drop_last() =~= metadata@.take(k as int));
        assert(metadata@.take(k + 1).last() == metadata@[k as int]);
        if !has_text(&out, id) {
            out.push(String::from_str(id));
            assert(texts(out@) =~= before.push(id@));
        }
        k = k + 1;
    }
    assert(metadata@.take(k as int) =~= metadata@);
    proof {
        lemma_distinct_ids(metadata@);
    }
    out
}

/// The row ids and hashes of the metadata rows of participant `id`.
fn rows_of_participant(metadata: &Vec<MetadataRow>, id: &str) -> (r: Vec<(u32, Vec<u8>)>)
    ensures
        row_data_view(r@) == rows_of_id(metadata@, id@),
{
    let mut out: Vec<(u32, Vec<u8>)> = Vec::new();
    let mut k: usize = 0;
    assert(metadata@.take(0) =~= Seq::<MetadataRow>::empty());
    assert(row_data_view(out@) =~= Seq::<(u32, Seq<u8>)>::empty());
    while k < metadata.len()
        invariant
            k <= metadata@.len(),
            row_data_view(out@) == rows_of_id(metadata@.take(k as int), id@),
        decreases metadata.len() - k,
    {
        let ghost before = row_data_view(out@);
        assert(metadata@.take(k + 1).drop_last() =~= metadata@.take(k as int));
        assert(metadata@.take(k + 1).last() == metadata@[k as int]);
        let e = &metadata[k];
        if text_eq(e.0.as_str(), id) {
            let h = e.2.clone();
            assert(h@ =~= e.2@);
            out.push((e.1, h));
            assert(row_data_view(out@) =~= before.push((e.1, e.2@)));
        }
        k = k + 1;
    }
    assert(metadata@.take(k as int) =~= metadata@);
    out
}

/// A participant of a user database with the rows of one of its tables
/// that the participant holds: each row id with its hash.
#[derive(Debug)]
pub struct CoopDatabaseParticipantData {
    pub participant: CoopDatabaseParticipant,
    pub db_name: String,
    pub table_name: String,
    pub row_data: Vec<(u32, Vec<u8>)>,
}

/// The participants holding rows of the table `table_name` of `db_name`,
/// from the rows of the table's metadata table (`metadata`): one entry for
/// each distinct participant id that the rows name, in the order of its
/// first row, with the participant read for that id (`participants`, at
/// the same position) and the row ids and hashes of that id's rows.
pub fn get_participants_for_table(
    db_name: &str,
    table_name: &str,
    metadata: &Vec<MetadataRow>,
    participants: Vec<CoopDatabaseParticipant>,
) -> (r: Vec<CoopDatabaseParticipantData>)
    requires
        participants@.len() == distinct_ids(metadata@).len(),
        forall|i: int|
            0 <= i < participants@.len() ==> (#[trigger] participants@[i]).internal_id@
                == distinct_ids(metadata@)[i],
    ensures
        r@.len() == distinct_ids(metadata@).len(),
        forall|i: int|
            0 <= i < r@.len() ==> {
                &&& (#[trigger] r@[i]).participant == participants@[i]
                &&& r@[i].participant.internal_id@ == distinct_ids(metadata@)[i]
                &&& r@[i].db_name@ == db_name@
                &&& r@[i].table_name@ == table_name@
                &&& row_data_view(r@[i].row_data@) == rows_of_id(metadata@, distinct_ids(metadata@)[i])
            },
        forall|i: int, j: int|
            0 <= i < j < r@.len() ==> r@[i].participant.internal_id@ != r@[j].participant.internal_id@,
        forall|j: int|
            0 <= j < metadata@.len() ==> exists|i: int|
                0 <= i < r@.len() && r@[i].participant.internal_id@ == #[trigger] metadata@[j].0@,
{
    proof {
        lemma_distinct_ids(metadata@);
    }
    let ghost ids = distinct_ids(metadata@);
    let mut out: Vec<CoopDatabaseParticipantData> = Vec::new();
    let mut ps = participants;
    let ghost all_p = ps@;
    let n = ps.len();
    let mut k: usize = 0;
    while k < n
        invariant
            n == all_p.len(),
            all_p.len() == ids.len(),
            ids == distinct_ids(metadata@),
            forall|i: int| 0 <= i < n ==> (#[trigger] all_p[i]).internal_id@ == ids[i],
            k <= n,
            ps@ == all_p.subrange(k as int, n as int),
            out@.len() == k,
            forall|i: int|
                0 <= i < k ==> {
                    &&& (#[trigger] out@[i]).participant == all_p[i]
                    &&& out@[i].db_name@ == db_name@
                    &&& out@[i].table_name@ == table_name@
                    &&& row_data_view(out@[i].row_data@) == rows_of_id(metadata@, ids[i])
                },
        decreases n - k,
    {
        let p = ps.remove(0);
        assert(ps@ =~= all_p.subrange(k + 1, n as int));
        assert(p == all_p[k as int]);
        let d = rows_of_participant(metadata, p.internal_id.as_str());
        out.push(
            CoopDatabaseParticipantData {
                participant: p,
                db_name: String::from_str(db_name),
                table_name: String::from_str(table_name),
                row_data: d,
            },
        );
        k = k + 1;
    }
    proof {
        assert forall|i: int, j: int| 0 <= i < j < out@.len() implies out@[i].participant.internal_id@
            != out@[j].participant.internal_id@ by {
            assert(out@[i].participant == all_p[i]);
            assert(out@[j].participant == all_p[j]);
        }
        assert forall|j: int| 0 <= j < metadata@.len() implies exists|i: int|
            0 <= i < out@.len() && out@[i].participant.internal_id@ == #[trigger] metadata@[j].0@ by {
            assert(ids.contains(metadata@[j].0@));
            let i = choose|i: int| 0 <= i < ids.len() && ids[i] == metadata@[j].0@;
            assert(out@[i].participant == all_p[i]);
        }
    }
    out
}

/// The statement that reads the hash recorded for row `row_id` in the
/// metadata table `metadata_table` of the partial database held for
/// `db_name`.
pub fn get_data_hash_at_participant(
    db_name: &str,
    metadata_table: &str,
    row_id: u32,
    config: &DbiConfigSqlite,
) -> (r: DbStatement)
    ensures
        r@ == stmt(
            config.root_folder@,
            partial_file_name(db_name@),
            spec_replace(spec_replace(DATA_HASH@, ":metadata"@, metadata_table@), ":row_id"@, decimal(row_id as nat)),
            Seq::empty(),
        ),
{
    proof {
        reveal_strlit(":metadata");
        reveal_strlit(":row_id");
    }
    let cmd = replace(DATA_HASH, ":metadata", metadata_table);
    let rid = u32_to_text(row_id);
    let cmd = replace(cmd.as_str(), ":row_id", rid.as_str());
    let file = partial_db_file_name(db_name);
    plain_statement(config.root_folder.as_str(), file.as_str(), cmd.as_str())
}

} // verus!

verus! {

/// The value that the parameters of a statement bind to `name`: that of the
/// first parameter of that name; none where no parameter has it.
pub open spec fn bound_value(params: Seq<(Seq<char>, SqlValueView)>, name: Seq<char>) -> Option<SqlValueView>
    decreases params.len(),
{
    if params.len() == 0 {
        None
    } else if params[0].0 == name {
        Some(params[0].1)
    } else {
        bound_value(params.drop_first(), name)
    }
}

proof fn lemma_participant_param_names()
    ensures
        ":internal_id"@.len() == 12,
        ":alias"@.len() == 6,
        ":ip4addr"@.len() == 8,
        ":ip6addr"@.len() == 8,
        ":db_port"@.len() == 8,
        ":contract_status"@.len() == 16,
        ":accepted_contract_version"@.len() == 26,
        ":token"@.len() == 6,
        ":id"@.len() == 3,
        ":ip4addr"@ != ":ip6addr"@,
        ":ip4addr"@ != ":db_port"@,
        ":ip6addr"@ != ":db_port"@,
        ":alias"@ != ":token"@,
{
    reveal_strlit(":internal_id");
    reveal_strlit(":alias");
    reveal_strlit(":ip4addr");
    reveal_strlit(":ip6addr");
    reveal_strlit(":db_port");
    reveal_strlit(":contract_status");
    reveal_strlit(":accepted_contract_version");
    reveal_strlit(":token");
    reveal_strlit(":id");
    assert(":ip4addr"@[3] != ":ip6addr"@[3]);
    assert(":ip4addr"@[1] != ":db_port"@[1]);
    assert(":ip6addr"@[1] != ":db_port"@[1]);
    assert(":alias"@[1] != ":token"@[1]);
}

/// Saving a participant that is not recorded yet inserts it into
/// COOP_PARTICIPANT with each column bound to the participant's own field:
/// the internal id, alias, IPv4 and IPv6 addresses, port (as decimal text),
/// contract status code, accepted contract version, token and participant
/// id.
pub proof fn law_new_participant_columns_hold_its_fields(
    folder: Seq<char>,
    db: Seq<char>,
    p: CoopDatabaseParticipant,
    r: DbStep<()>,
)
    requires
        save_participant_spec(folder, db, p, seq![0u64], r),
    ensures
        r matches DbStep::Execute(st) && {
            let ps = st@.params;
            &&& st@.sql == ADD_PARTICIPANT@
            &&& bound_value(ps, ":internal_id"@) == Some(SqlValueView::Text(p.internal_id@))
            &&& bound_value(ps, ":alias"@) == Some(SqlValueView::Text(p.alias@))
            &&& bound_value(ps, ":ip4addr"@) == Some(SqlValueView::Text(p.ip4addr@))
            &&& bound_value(ps, ":ip6addr"@) == Some(SqlValueView::Text(p.ip6addr@))
            &&& bound_value(ps, ":db_port"@) == Some(SqlValueView::Text(decimal(p.db_port as nat)))
            &&& bound_value(ps, ":contract_status"@) == Some(SqlValueView::Int(p.contract_status.code()))
            &&& bound_value(ps, ":accepted_contract_version"@) == Some(
                SqlValueView::Text(p.accepted_contract_version@),
            )
            &&& bound_value(ps, ":token"@) == Some(SqlValueView::Blob(p.token@))
            &&& bound_value(ps, ":id"@) == Some(SqlValueView::Text(p.id@))
        },
{
    lemma_participant_param_names();
    reveal_with_fuel(bound_value, 10);
}

/// Saving a participant that is recorded rewrites its row, found by its
/// alias, with each column bound to the participant's own field.
pub proof fn law_recorded_participant_columns_hold_its_fields(
    folder: Seq<char>,
    db: Seq<char>,
    p: CoopDatabaseParticipant,
    count: u64,
    r: DbStep<()>,
)
    requires
        count > 0,
        save_participant_spec(folder, db, p, seq![count], r),
    ensures
        r matches DbStep::Execute(st) && {
            let ps = st@.params;
            &&& st@.sql == UPDATE_PARTICIPANT@
            &&& bound_value(ps, ":alias"@) == Some(SqlValueView::Text(p.alias@))
            &&& bound_value(ps, ":ip4addr"@) == Some(SqlValueView::Text(p.ip4addr@))
            &&& bound_value(ps, ":ip6addr"@) == Some(SqlValueView::Text(p.ip6addr@))
            &&& bound_value(ps, ":db_port"@) == Some(SqlValueView::Text(decimal(p.db_port as nat)))
            &&& bound_value(ps, ":contract_status"@) == Some(SqlValueView::Int(p.contract_status.code()))
            &&& bound_value(ps, ":accepted_contract_version"@) == Some(
                SqlValueView::Text(p.accepted_contract_version@),
            )
            &&& bound_value(ps, ":token"@) == Some(SqlValueView::Blob(p.token@))
            &&& bound_value(ps, ":id"@) == Some(SqlValueView::Text(p.id@))
        },
{
    lemma_participant_param_names();
    reveal_with_fuel(bound_value, 10);
}

} // verus!
