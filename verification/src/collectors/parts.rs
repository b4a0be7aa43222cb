//! The collector of part counts and sizes.

use crate::collectors::{table_query, table_query_text};
use crate::text::texts_of;
use vstd::prelude::*;

verus! {

/// Collector of part counts and sizes, read from `system.parts`.
pub struct PartsCollector;

/// The query up to the place of the database name.
pub const QUERY_HEAD: &'static str = "
            SELECT
                database,
                table,
                count() AS parts_count,
                countIf(active) AS active_parts,
                sum(rows) AS total_rows,
                sum(bytes_on_disk) AS bytes_on_disk,
                toString(min(modification_time)) AS oldest_part,
                toString(max(modification_time)) AS newest_part
            FROM system.parts
            WHERE database = '";

impl PartsCollector {
    /// The query for `database` and `tables`.
    pub open spec fn query_text(database: Seq<char>, tables: Seq<Seq<char>>) -> Seq<char> {
        table_query_text(QUERY_HEAD@, database, tables)
    }

    /// The query is determined by the database and the tables: two queries
    /// built from the same arguments are the same text.
    pub proof fn query_is_determined(
        database: Seq<char>,
        tables: Seq<Seq<char>>,
        first: Seq<char>,
        second: Seq<char>,
    )
        requires
            first == Self::query_text(database, tables),
            second == Self::query_text(database, tables),
        ensures
            first == second,
    {
    }

    /// Builds the query: one row per table of `tables` in `database`.
    pub fn build_query(database: &str, tables: &[String]) -> (r: String)
        ensures
            r@ == Self::query_text(database@, texts_of(tables@)),
    {
        table_query(QUERY_HEAD, database, tables)
    }

    /// The query as the evidence ledger records it: the text of
    /// [`Self::build_query`].
    pub fn sql(database: &str, tables: &[String]) -> (r: String)
        ensures
            r@ == Self::query_text(database@, texts_of(tables@)),
    {
        Self::build_query(database, tables)
    }
}

} // verus!
