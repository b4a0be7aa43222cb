//! The evidence ledger: one numbered entry per source query.

use crate::report::stamp::now_rfc3339;
use crate::report::types::Evidence;
use crate::text::{padded3_string, padded3_text, same_text, trim_text, trimmed};
use vstd::prelude::*;
use vstd::string::StringExecFns;

verus! {

/// What every evidence identifier begins with.
pub const EVIDENCE_PREFIX: &'static str = "ev-";

/// The identifier of the `n`-th entry, counted from 1: `ev-001`, `ev-002`, ...
pub open spec fn evidence_id_text(n: nat) -> Seq<char> {
    EVIDENCE_PREFIX@ + padded3_text(n)
}

/// Whether the entries carry the identifiers `ev-001`, `ev-002`, ... in this
/// order, without a gap.
pub open spec fn numbered_in_order(entries: Seq<Evidence>) -> bool {
    forall|i: int| 0 <= i < entries.len() ==> (#[trigger] entries[i]).id@ == evidence_id_text((i + 1) as nat)
}

/// An append-only ledger of the source queries of one run.
#[derive(Debug)]
pub struct EvidenceCollector {
    evidence: Vec<Evidence>,
}

impl View for EvidenceCollector {
    type V = Seq<Evidence>;

    /// The entries, oldest first.
    closed spec fn view(&self) -> Seq<Evidence> {
        self.evidence@
    }
}

impl EvidenceCollector {
    /// Whether the ledger is as its own operations leave it: the entries
    /// carry the identifiers `ev-001`, `ev-002`, ... in this order.
    pub open spec fn well_formed(&self) -> bool {
        numbered_in_order(self@)
    }

    /// An empty ledger.
    pub fn new() -> (r: Self)
        ensures
            r@.len() == 0,
            r.well_formed(),
    {
        EvidenceCollector { evidence: Vec::new() }
    }

    /// Appends an entry for the query `sql` against `source`, stamped with the
    /// current instant, and returns its identifier: the next of `ev-001`,
    /// `ev-002`, ... The query is stored without the white space around it.
    pub fn record(&mut self, source: &str, sql: &str) -> (id: String)
        ensures
            old(self).well_formed() ==> final(self).well_formed(),
            id@ == evidence_id_text(old(self)@.len() + 1),
            final(self)@.len() == old(self)@.len() + 1,
            final(self)@.drop_last() == old(self)@,
            final(self)@.last().id@ == id@,
            final(self)@.last().source@ == source@,
            final(self)@.last().sql@ == trimmed(sql@),
    {
        let number = self.evidence.len() as u128 + 1;
        let mut id = String::from_str(EVIDENCE_PREFIX);
        let digits = padded3_string(number);
        id.append(digits.as_str());
        let entry = Evidence {
            id: id.clone(),
            source: String::from_str(source),
            sql: trim_text(sql),
            collected_at: now_rfc3339(),
        };
        self.evidence.push(entry);
        id
    }

    /// A copy of all entries, oldest first; their identifiers are `ev-001`,
    /// `ev-002`, ... without a gap.
    pub fn get_all(&self) -> (r: Vec<Evidence>)
        ensures
            r@ == self@,
            self.well_formed() ==> numbered_in_order(r@),
    {
        self.evidence.clone()
    }

    /// The oldest entry with the identifier `id`, if the ledger holds one.
    pub fn get(&self, id: &str) -> (r: Option<&Evidence>)
        ensures
            match r {
                Some(e) => exists|i: int|
                    0 <= i < self@.len() && self@[i] == *e && (#[trigger] self@[i]).id@ == id@
                        && forall|j: int| 0 <= j < i ==> (#[trigger] self@[j]).id@ != id@,
                None => forall|i: int| 0 <= i < self@.len() ==> (#[trigger] self@[i]).id@ != id@,
            },
    {
        let mut i: usize = 0;
        while i < self.evidence.len()
            invariant
                i <= self.evidence.len(),
                forall|j: int| 0 <= j < i ==> (#[trigger] self.evidence@[j]).id@ != id@,
            decreases self.evidence.len() - i,
        {
            if same_text(self.evidence[i].id.as_str(), id) {
                assert(self@[i as int].id@ == id@);
                return Some(&self.evidence[i]);
            }
            i = i + 1;
        }
        None
    }

    /// The number of entries.
    pub fn len(&self) -> (r: usize)
        ensures
            r == self@.len(),
    {
        self.evidence.len()
    }

    /// Whether the ledger holds no entry.
    pub fn is_empty(&self) -> (r: bool)
        ensures
            r == (self@.len() == 0),
    {
        self.evidence.len() == 0
    }
}

impl Default for EvidenceCollector {
    fn default() -> (r: Self)
        ensures
            r@.len() == 0,
            r.well_formed(),
    {
        EvidenceCollector::new()
    }
}

} // verus!
