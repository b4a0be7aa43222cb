//! The collector of running merges.

use crate::collectors::{table_query, table_query_text};
use crate::text::texts_of;
use vstd::prelude::*;

verus! {

/// Collector of running merges, read from `system.merges`.
pub struct MergesCollector;

/// The query up to the place of the database name.
pub const QUERY_HEAD: &'static str = "
            SELECT
                database,
                table,
                count() AS merges_in_queue,
                sum(rows_read) AS merge_rows_read,
                sum(bytes_read_uncompressed) AS merge_bytes_read,
                max(elapsed) AS max_merge_elapsed_sec
            FROM system.merges
            WHERE database = '";

impl MergesCollector {
    /// The query for `database` and `tables`.
    pub open spec fn query_text(database: Seq<char>, tables: Seq<Seq<char>>) -> Seq<char> {
        table_query_text(QUERY_HEAD@, database, tables)
    }

    /// The query is determined by the database and the tables: two queries
    /// built from the same arguments are the same text.
    pub proof fn query_is_determined(
        database: Seq<char>,
        tables: Seq<Seq<char>>,
        first: Seq<char>,
        second: Seq<char>,
    )
        requires
            first == Self::query_text(database, tables),
            second == Self::query_text(database, tables),
        ensures
            first == second,
    {
    }

    /// Builds the query: one row per table of `tables` in `database`.
    pub fn build_query(database: &str, tables: &[String]) -> (r: String)
        ensures
            r@ == Self::query_text(database@, texts_of(tables@)),
    {
        table_query(QUERY_HEAD, database, tables)
    }

    /// The query as the evidence ledger records it: the text of
    /// [`Self::build_query`].
    pub fn sql(database: &str, tables: &[String]) -> (r: String)
        ensures
            r@ == Self::query_text(database@, texts_of(tables@)),
    {
        Self::build_query(database, tables)
    }
}

} // verus!
