//! What the client service answers: whether the caller was authenticated,
//! and the outcome of the operation it asked for.
use vstd::prelude::*;

use crate::cdata::{Row as CRow, TestReply, TestRequest};
use crate::guid::utc_now_rfc2822;
use crate::rcd_enum::RcdGenerateContractError;

verus! {

/// The answer to an online test: the request's message echoed back, with
/// the time of the answer in RFC 2822 form.
pub fn is_online(request: &TestRequest) -> (r: TestReply)
    ensures
        r.reply_echo_message@ == request.request_echo_message@,
{
    TestReply { reply_time_utc: utc_now_rfc2822(), reply_echo_message: request.request_echo_message.clone() }
}

/// The result of an authentication attempt.
#[derive(Clone, Debug)]
pub struct AuthResult {
    pub user_name: String,
    pub token: String,
    pub is_authenticated: bool,
    pub authentication_message: String,
}

/// The results of a SQL statement run for a client.
#[derive(Clone, Debug)]
pub struct StatementResultset {
    pub is_error: bool,
    pub result_message: String,
    pub number_of_rows_affected: u64,
    pub rows: Vec<CRow>,
    pub execution_error_message: String,
}

/// The authentication result sent with every answer: whether the caller
/// was authenticated, and nothing else.
pub fn auth_result(is_authenticated: bool) -> (r: AuthResult)
    ensures
        r.is_authenticated == is_authenticated,
        r.user_name@.len() == 0,
        r.token@.len() == 0,
        r.authentication_message@.len() == 0,
{
    AuthResult {
        user_name: String::new(),
        token: String::new(),
        is_authenticated,
        authentication_message: String::new(),
    }
}

/// A count of rows as a `u64`, as `conv`'s `u64::value_from` gives it for
/// a `usize`: the same number, which always fits.
pub fn rows_count(n: usize) -> (r: u64)
    ensures
        r == n,
{
    n as u64
}

/// The results of a read run for a client: for an authenticated caller,
/// the rows read and their number, or the error the read ended with; for
/// any other caller, an error without rows or message.
pub fn read_result_set(is_authenticated: bool, outcome: Result<Vec<CRow>, String>) -> (r:
    StatementResultset)
    ensures
        r.result_message@.len() == 0,
        !is_authenticated ==> r.is_error && r.rows@.len() == 0 && r.number_of_rows_affected == 0
            && r.execution_error_message@.len() == 0,
        is_authenticated ==> match outcome {
            Ok(rows) => !r.is_error && r.rows == rows && r.number_of_rows_affected == rows@.len()
                && r.execution_error_message@.len() == 0,
            Err(m) => r.is_error && r.rows@.len() == 0 && r.number_of_rows_affected == 0
                && r.execution_error_message == m,
        },
{
    let mut set = StatementResultset {
        is_error: true,
        result_message: String::new(),
        number_of_rows_affected: 0,
        rows: Vec::new(),
        execution_error_message: String::new(),
    };
    if is_authenticated {
        match outcome {
            Ok(rows) => {
                set.number_of_rows_affected = rows_count(rows.len());
                set.rows = rows;
                set.is_error = false;
            },
            Err(m) => {
                set.execution_error_message = m;
            },
        }
    }
    set
}

/// Whether generating a contract succeeded, and the message answered: for
/// an authenticated caller, the outcome of the generation, with the list
/// of tables without a policy when it was refused for them; for any other
/// caller, no success and no message.
pub fn generate_contract_outcome(is_authenticated: bool, result: Result<bool, RcdGenerateContractError>) -> (r: (
    bool,
    String,
))
    ensures
        !is_authenticated ==> !r.0 && r.1@.len() == 0,
        is_authenticated ==> match result {
            Ok(b) => r.0 == b && r.1@.len() == 0,
            Err(RcdGenerateContractError::NotAllTablesSet(m)) => !r.0 && r.1 == m,
            Err(RcdGenerateContractError::General(_)) => !r.0 && r.1@.len() == 0,
        },
{
    if !is_authenticated {
        return (false, String::new());
    }
    match result {
        Ok(b) => (b, String::new()),
        Err(RcdGenerateContractError::NotAllTablesSet(m)) => (false, m),
        Err(RcdGenerateContractError::General(_)) => (false, String::new()),
    }
}

} // verus!
