//! The collector of disk capacities.

use vstd::prelude::*;
use vstd::string::StringExecFns;

verus! {

/// Collector of disk capacities, read from `system.disks`.
pub struct DiskCollector;

/// The query: every disk, with its free share in percent to two places.
pub const DISK_QUERY: &'static str = "
        SELECT
            name AS disk_name,
            path,
            total_space,
            free_space,
            round(100.0 * free_space / total_space, 2) AS free_percent
        FROM system.disks
        ORDER BY disk_name
        ";

impl DiskCollector {
    /// Builds the query; it has no parameter.
    pub fn build_query() -> (r: String)
        ensures
            r@ == DISK_QUERY@,
    {
        String::from_str(DISK_QUERY)
    }

    /// The query as the evidence ledger records it: the text of
    /// [`Self::build_query`].
    pub fn sql() -> (r: String)
        ensures
            r@ == DISK_QUERY@,
    {
        Self::build_query()
    }
}

} // verus!
