//! The collector of query-log statistics.

use crate::text::{decimal_string, decimal_text};
use vstd::prelude::*;
use vstd::string::StringExecFns;

verus! {

/// Collector of the heaviest finished `SELECT` queries of the last seven days,
/// read from `system.query_log`.
pub struct QueryLogCollector;

/// The query up to the place of the database name.
pub const QUERY_HEAD: &'static str = "
            SELECT
                normalizeQuery(query) AS query_fingerprint,
                count() AS execution_count,
                avg(query_duration_ms) AS avg_duration_ms,
                sum(read_rows) AS total_read_rows,
                sum(read_bytes) AS total_read_bytes,
                sum(result_rows) AS total_result_rows,
                round(sum(read_rows) / greatest(sum(result_rows), 1), 2) AS read_amplification,
                toUInt64(avg(memory_usage)) AS avg_memory_bytes,
                any(query) AS sample_query
            FROM system.query_log
            WHERE
                type = 'QueryFinish'
                AND query_kind = 'Select'
                AND event_date >= today() - 7
                AND has(databases, '";

/// Between the database name and the row limit.
pub const QUERY_MID: &'static str = "')
            GROUP BY query_fingerprint
            ORDER BY total_read_rows DESC
            LIMIT ";

/// What follows the row limit.
pub const QUERY_TAIL: &'static str = "
            ";

/// The number of fingerprints that are collected unless the caller asks
/// otherwise.
pub const DEFAULT_LIMIT: usize = 20;

impl QueryLogCollector {
    /// The query for `database` that returns at most `limit` fingerprints.
    pub open spec fn query_text(database: Seq<char>, limit: nat) -> Seq<char> {
        QUERY_HEAD@ + database + QUERY_MID@ + decimal_text(limit) + QUERY_TAIL@
    }

    /// The query is determined by the database and the limit: two queries
    /// built from the same arguments are the same text.
    pub proof fn query_is_determined(
        database: Seq<char>,
        limit: nat,
        first: Seq<char>,
        second: Seq<char>,
    )
        requires
            first == Self::query_text(database, limit),
            second == Self::query_text(database, limit),
        ensures
            first == second,
    {
    }

    /// Builds the query: the `limit` fingerprints of `database` that read the
    /// most rows.
    pub fn build_query(database: &str, limit: usize) -> (r: String)
        ensures
            r@ == Self::query_text(database@, limit as nat),
    {
        let mut out = String::from_str(QUERY_HEAD);
        out.append(database);
        out.append(QUERY_MID);
        let n = decimal_string(limit as u128);
        out.append(n.as_str());
        out.append(QUERY_TAIL);
        out
    }

    /// The query as the evidence ledger records it: the text of
    /// [`Self::build_query`] with the default limit.
    pub fn sql(database: &str) -> (r: String)
        ensures
            r@ == Self::query_text(database@, DEFAULT_LIMIT as nat),
    {
        Self::build_query(database, DEFAULT_LIMIT)
    }
}

} // verus!
