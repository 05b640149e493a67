//! What the database layer decides: the connection string and size of the
//! pool, the diagnostic line for each traced operation, and how a connection
//! that a failed transaction left behind is made usable again.
//!
//! Nothing here talks to a database. The caller connects, runs the statements
//! and writes the lines.

use crate::text::{has_char, occurs_at, occurs_in};
use vstd::prelude::*;

verus! {

/// The largest number of connections that the pool keeps open.
pub const MAX_POOL_SIZE: u32 = 10;

/// The URL parameter that makes a session look names up in the schema
/// `test`. It sets the server option `search_path=test`; inside a parameter's
/// value the `=` is written `%3D`.
pub const TEST_SCHEMA_OPTION: &'static str = "options=-c search_path%3Dtest";

/// The statement that probes whether a connection still takes statements.
pub const PROBE_QUERY: &'static str = "SELECT 1";

/// The connection string in effect: `url` itself, or under test mode `url`
/// with the test schema parameter appended, after `&` where `url` already has
/// a `?` and after `?` where it has none.
pub open spec fn spec_connection_url(url: Seq<char>, test_mode: bool) -> Seq<char> {
    if !test_mode {
        url
    } else if url.contains('?') {
        url.push('&') + TEST_SCHEMA_OPTION@
    } else {
        url.push('?') + TEST_SCHEMA_OPTION@
    }
}

/// Under test mode the connection string is the configured one, then `&`
/// where that holds a `?` and `?` where it holds none, then the test schema
/// parameter and nothing more; so it always carries the override of the
/// search path. Outside test mode it is the configured one.
pub proof fn lemma_test_mode_url(url: Seq<char>)
    ensures
        spec_connection_url(url, false) == url,
        spec_connection_url(url, true).len() == url.len() + 1 + TEST_SCHEMA_OPTION@.len(),
        spec_connection_url(url, true).take(url.len() as int) == url,
        spec_connection_url(url, true)[url.len() as int] == (if url.contains('?') {
            '&'
        } else {
            '?'
        }),
        spec_connection_url(url, true).skip(url.len() as int + 1) == TEST_SCHEMA_OPTION@,
        occurs_in("search_path%3Dtest"@, spec_connection_url(url, true)),
{
    reveal_strlit("options=-c search_path%3Dtest");
    reveal_strlit("search_path%3Dtest");
    let r = spec_connection_url(url, true);
    let at: int = url.len() as int + 12;
    assert(r.subrange(at, at + 18) == "search_path%3Dtest"@);
    assert(occurs_at("search_path%3Dtest"@, r, at));
}

/// The connection string in effect for `url`.
pub fn connection_url(url: &str, test_mode: bool) -> (r: String)
    ensures
        r@ == spec_connection_url(url@, test_mode),
{
    let mut r = url.to_owned();
    if test_mode {
        if has_char(url, '?') {
            r.push('&');
        } else {
            r.push('?');
        }
        r.append(TEST_SCHEMA_OPTION);
    }
    r
}

/// What the pool is built from.
#[derive(Debug)]
pub struct PoolSettings {
    /// The connection string handed to every new connection.
    pub url: String,
    /// The largest number of connections kept open.
    pub max_size: u32,
}

/// The settings of the process-wide pool for the configured connection
/// string.
pub fn pool_settings(url: &str, test_mode: bool) -> (settings: PoolSettings)
    ensures
        settings.url@ == spec_connection_url(url@, test_mode),
        settings.max_size == MAX_POOL_SIZE,
{
    PoolSettings { url: connection_url(url, test_mode), max_size: MAX_POOL_SIZE }
}

/// A database operation that an instrumented connection times, with the SQL
/// it ran where it ran any.
#[derive(Debug)]
pub enum Operation {
    /// A connection was opened.
    EstablishConnection,
    /// A statement given as text was executed.
    ExecuteQuery(String),
    /// A query was run whose rows are read by position.
    QueryByIndex(String),
    /// A query was run whose rows are read by column name.
    QueryByName(String),
    /// A statement was executed for the number of rows it touched.
    ExecuteReturningCount(String),
}

/// The diagnostic line for an operation that took `elapsed`.
pub open spec fn spec_trace_line(operation: Operation, elapsed: Seq<char>) -> Seq<char> {
    match operation {
        Operation::EstablishConnection => "EstablishConnection in "@ + elapsed,
        Operation::ExecuteQuery(sql) => "ExecuteQuery: "@ + sql@ + " in "@ + elapsed + "."@,
        Operation::QueryByIndex(sql) => "QueryByIndex: "@ + sql@ + " in "@ + elapsed + "."@,
        Operation::QueryByName(sql) => "QueryByName: "@ + sql@ + " in "@ + elapsed,
        Operation::ExecuteReturningCount(sql) => "ExecuteReturningCount: "@ + sql@ + " in "@
            + elapsed,
    }
}

/// The diagnostic line for `operation`, which took `elapsed`.
pub fn trace_line(operation: &Operation, elapsed: &str) -> (line: String)
    ensures
        line@ == spec_trace_line(*operation, elapsed@),
{
    let mut line = String::new();
    match operation {
        Operation::EstablishConnection => {
            line.append("EstablishConnection in ");
            line.append(elapsed);
        },
        Operation::ExecuteQuery(sql) => {
            line.append("ExecuteQuery: ");
            line.append(sql.as_str());
            line.append(" in ");
            line.append(elapsed);
            line.append(".");
        },
        Operation::QueryByIndex(sql) => {
            line.append("QueryByIndex: ");
            line.append(sql.as_str());
            line.append(" in ");
            line.append(elapsed);
            line.append(".");
        },
        Operation::QueryByName(sql) => {
            line.append("QueryByName: ");
            line.append(sql.as_str());
            line.append(" in ");
            line.append(elapsed);
        },
        Operation::ExecuteReturningCount(sql) => {
            line.append("ExecuteReturningCount: ");
            line.append(sql.as_str());
            line.append(" in ");
            line.append(elapsed);
        },
    }
    line
}

/// Where the clean-up of a connection stands: what the caller does next.
#[derive(Clone, Copy, Debug, PartialEq, Eq, Structural)]
pub enum CleanupStep {
    /// Run [`PROBE_QUERY`] on the connection.
    Probe,
    /// Roll back the transaction that is open on the connection.
    Rollback,
    /// Nothing is left to do.
    Done,
}

/// What follows one step of the clean-up.
#[derive(Debug)]
pub struct CleanupDecision {
    /// The step to take next.
    pub next: CleanupStep,
    /// The line to write to standard error, if any.
    pub log: Option<String>,
}

/// The step that follows `step` once it has ended as `outcome` tells: a
/// failed probe calls for a rollback, everything else ends the clean-up.
pub open spec fn spec_next_step(step: CleanupStep, outcome: Result<(), String>) -> CleanupStep {
    match (step, outcome) {
        (CleanupStep::Probe, Err(_)) => CleanupStep::Rollback,
        _ => CleanupStep::Done,
    }
}

/// The line that reports how `step` ended: none where it succeeded, else the
/// error behind the label of the step that failed.
pub open spec fn spec_cleanup_log(
    step: CleanupStep,
    outcome: Result<(), String>,
) -> Option<Seq<char>> {
    match (step, outcome) {
        (CleanupStep::Probe, Err(error)) => Some("connection_not_clean: "@ + error@),
        (CleanupStep::Rollback, Err(error)) => Some(
            "connection_not_clean_and_cleanup_failed: "@ + error@,
        ),
        _ => None,
    }
}

/// The clean-up is over after two steps at most, whatever their outcomes; the
/// rollback is asked for exactly where the probe failed; and a line is
/// written exactly where a step that was due has failed.
pub proof fn lemma_cleanup_ends(
    step: CleanupStep,
    first: Result<(), String>,
    second: Result<(), String>,
)
    ensures
        spec_next_step(spec_next_step(CleanupStep::Probe, first), second) == CleanupStep::Done,
        spec_next_step(CleanupStep::Probe, first) == CleanupStep::Rollback <==> first is Err,
        spec_next_step(CleanupStep::Rollback, first) == CleanupStep::Done,
        spec_next_step(CleanupStep::Done, first) == CleanupStep::Done,
        spec_cleanup_log(step, first) is Some <==> step != CleanupStep::Done && first is Err,
{
}

/// Decides what follows `step`, which ended with `outcome`; an error comes as
/// its debug rendering. The clean-up starts at [`CleanupStep::Probe`] and is
/// over at [`CleanupStep::Done`], where the outcome no longer matters.
pub fn rollback_if_required(
    step: CleanupStep,
    outcome: Result<(), String>,
) -> (decision: CleanupDecision)
    ensures
        decision.next == spec_next_step(step, outcome),
        decision.log.deep_view() == spec_cleanup_log(step, outcome),
{
    match (step, outcome) {
        (CleanupStep::Probe, Err(error)) => {
            let mut line = String::new();
            line.append("connection_not_clean: ");
            line.append(error.as_str());
            CleanupDecision { next: CleanupStep::Rollback, log: Some(line) }
        },
        (CleanupStep::Rollback, Err(error)) => {
            let mut line = String::new();
            line.append("connection_not_clean_and_cleanup_failed: ");
            line.append(error.as_str());
            CleanupDecision { next: CleanupStep::Done, log: Some(line) }
        },
        _ => CleanupDecision { next: CleanupStep::Done, log: None },
    }
}

} // verus!
