//! The collectors: each owns the text of one introspection query.
//!
//! A collector builds its query from the database and tables it is given;
//! running the query is left to the caller.

pub mod depth;
pub mod disk;
pub mod evidence;
pub mod merges;
pub mod mutations;
pub mod mv_dag;
pub mod parts;
pub mod query_log;

pub use disk::DiskCollector;
pub use evidence::EvidenceCollector;
pub use merges::MergesCollector;
pub use mutations::MutationsCollector;
pub use mv_dag::{DependencyRow, MvDagCollector, TableRow};
pub use parts::PartsCollector;
pub use query_log::QueryLogCollector;

use crate::text::{quoted_list, quoted_list_text, texts_of};
use vstd::prelude::*;
use vstd::string::StringExecFns;

verus! {

/// Between the database name and the list of tables in a table filter.
pub const TABLE_FILTER_MID: &'static str = "' AND table IN (";

/// What follows the list of tables: grouping and order of the rows.
pub const TABLE_FILTER_TAIL: &'static str = ")
            GROUP BY database, table
            ORDER BY table
            ";

/// A query over one system table, restricted to `database` and `tables`,
/// grouped by database and table and ordered by table: `head`, which ends
/// where the database name is to stand, then the name, the quoted tables and
/// the grouping.
pub open spec fn table_query_text(head: Seq<char>, database: Seq<char>, tables: Seq<Seq<char>>) -> Seq<
    char,
> {
    head + database + TABLE_FILTER_MID@ + quoted_list_text(tables) + TABLE_FILTER_TAIL@
}

/// Builds the query that [`table_query_text`] describes.
pub fn table_query(head: &str, database: &str, tables: &[String]) -> (r: String)
    ensures
        r@ == table_query_text(head@, database@, texts_of(tables@)),
{
    let mut out = String::from_str(head);
    out.append(database);
    out.append(TABLE_FILTER_MID);
    let list = quoted_list(tables);
    out.append(list.as_str());
    out.append(TABLE_FILTER_TAIL);
    out
}

} // verus!
