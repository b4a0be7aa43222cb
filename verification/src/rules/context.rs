//! The audit context: the metrics that rules read.

use crate::report::types::{DiskMetrics, MergeMetrics, MutationMetrics, PartsMetrics, QueryMetrics};
use crate::text::same_text;
use vstd::pervasive::VecAdditionalExecFns;
use vstd::prelude::*;
use vstd::string::StringExecFns;

verus! {

/// What stands between database and table in a table key.
pub const KEY_SEPARATOR: &'static str = ".";

/// The key of a table: `database.table`.
pub open spec fn table_key_text(database: Seq<char>, table: Seq<char>) -> Seq<char> {
    database + KEY_SEPARATOR@ + table
}

/// Builds the key of a table: `database.table`.
pub fn table_key(database: &str, table: &str) -> (r: String)
    ensures
        r@ == table_key_text(database@, table@),
{
    let mut key = String::from_str(database);
    key.append(KEY_SEPARATOR);
    key.append(table);
    key
}

/// The first place at which `key` stands among `keys`, if it stands there.
pub open spec fn position_of(keys: Seq<Seq<char>>, key: Seq<char>) -> Option<int>
    decreases keys.len(),
{
    if keys.len() == 0 {
        None
    } else {
        match position_of(keys.drop_last(), key) {
            Some(i) => Some(i),
            None => if keys.last() == key {
                Some(keys.len() - 1)
            } else {
                None
            },
        }
    }
}

/// `position_of` finds the first place of a key, and none where the key does
/// not stand.
pub proof fn position_of_is_first(keys: Seq<Seq<char>>, key: Seq<char>)
    ensures
        match position_of(keys, key) {
            Some(i) => 0 <= i < keys.len() && keys[i] == key && forall|j: int|
                0 <= j < i ==> keys[j] != key,
            None => forall|j: int| 0 <= j < keys.len() ==> keys[j] != key,
        },
    decreases keys.len(),
{
    if keys.len() > 0 {
        let shorter = keys.drop_last();
        position_of_is_first(shorter, key);
        assert(forall|j: int| 0 <= j < shorter.len() ==> shorter[j] == keys[j]);
    }
}

/// The keys of a sequence of keyed records.
pub open spec fn keys_of<T>(entries: Seq<(Seq<char>, T)>) -> Seq<Seq<char>> {
    entries.map_values(|e: (Seq<char>, T)| e.0)
}

/// The records of a sequence of keyed records.
pub open spec fn values_of<T>(entries: Seq<(Seq<char>, T)>) -> Seq<T> {
    entries.map_values(|e: (Seq<char>, T)| e.1)
}

/// `entries` after `value` was put under `key`: the record under a present
/// key is replaced where it stands, a new key goes to the end with its record.
pub open spec fn put<T>(entries: Seq<(Seq<char>, T)>, key: Seq<char>, value: T) -> Seq<
    (Seq<char>, T),
> {
    match position_of(keys_of(entries), key) {
        Some(i) => entries.update(i, (key, value)),
        None => entries.push((key, value)),
    }
}

/// Whether no key stands twice among `keys`.
pub open spec fn distinct_keys(keys: Seq<Seq<char>>) -> bool {
    forall|i: int, j: int| 0 <= i < j < keys.len() ==> keys[i] != keys[j]
}

/// Records under text keys, in the order in which their keys first came. A
/// key stands once; a record put under a key that is present replaces the
/// record there.
#[derive(Debug)]
pub struct MetricTable<T> {
    entries: Vec<(String, T)>,
}

impl<T> View for MetricTable<T> {
    type V = Seq<(Seq<char>, T)>;

    /// The keys with their records, in the order in which the keys came.
    closed spec fn view(&self) -> Seq<(Seq<char>, T)> {
        self.entries@.map_values(|e: (String, T)| (e.0@, e.1))
    }
}

impl<T> MetricTable<T> {
    /// The keys, in the order in which they came.
    pub open spec fn keys(&self) -> Seq<Seq<char>> {
        keys_of(self@)
    }

    /// The records, in the order in which their keys came.
    pub open spec fn values(&self) -> Seq<T> {
        values_of(self@)
    }

    /// The record under `key`, if one stands there.
    pub open spec fn lookup(&self, key: Seq<char>) -> Option<T> {
        match position_of(self.keys(), key) {
            Some(i) => Some(self@[i].1),
            None => None,
        }
    }

    /// Whether the table is as its own operations leave it: no key stands
    /// twice.
    pub open spec fn well_formed(&self) -> bool {
        distinct_keys(self.keys())
    }

    /// An empty table.
    pub fn new() -> (r: Self)
        ensures
            r@.len() == 0,
            r.well_formed(),
            forall|k: Seq<char>| (#[trigger] r.lookup(k)) is None,
    {
        let r = MetricTable { entries: Vec::new() };
        r
    }

    /// The number of keys.
    pub fn len(&self) -> (r: usize)
        ensures
            r == self@.len(),
    {
        self.entries.len()
    }

    /// Whether the table holds no key.
    pub fn is_empty(&self) -> (r: bool)
        ensures
            r == (self@.len() == 0),
    {
        self.entries.len() == 0
    }

    /// The key at place `i`.
    pub fn key_at(&self, i: usize) -> (r: &String)
        requires
            i < self@.len(),
        ensures
            r@ == self@[i as int].0,
    {
        &self.entries[i].0
    }

    /// The record at place `i`.
    pub fn value_at(&self, i: usize) -> (r: &T)
        requires
            i < self@.len(),
        ensures
            *r == self@[i as int].1,
    {
        &self.entries[i].1
    }

    fn find(&self, key: &str) -> (r: Option<usize>)
        ensures
            match r {
                Some(i) => position_of(self.keys(), key@) == Some(i as int) && i < self@.len(),
                None => position_of(self.keys(), key@) is None,
            },
    {
        let mut i: usize = 0;
        while i < self.entries.len()
            invariant
                i <= self.entries.len(),
                position_of(self.keys().take(i as int), key@) is None,
            decreases self.entries.len() - i,
        {
            let ghost upto = self.keys().take(i as int);
            let ghost next = self.keys().take(i + 1);
            assert(next.drop_last() =~= upto);
            if same_text(self.entries[i].0.as_str(), key) {
                proof {
                    self.extends_position(next, key@, i as int);
                }
                return Some(i);
            }
            i = i + 1;
        }
        assert(self.keys().take(self.entries.len() as int) =~= self.keys());
        None
    }

    proof fn extends_position(&self, prefix: Seq<Seq<char>>, key: Seq<char>, at: int)
        requires
            prefix.len() <= self.keys().len(),
            prefix == self.keys().take(prefix.len() as int),
            position_of(prefix, key) == Some(at),
        ensures
            position_of(self.keys(), key) == Some(at),
        decreases self.keys().len() - prefix.len(),
    {
        let keys = self.keys();
        if prefix.len() < keys.len() {
            let longer = keys.take(prefix.len() + 1 as int);
            assert(longer.drop_last() =~= prefix);
            self.extends_position(longer, key, at);
        } else {
            assert(prefix =~= keys);
        }
    }

    /// Whether a record stands under `key`.
    pub fn contains_key(&self, key: &str) -> (r: bool)
        ensures
            r == position_of(self.keys(), key@).is_some(),
    {
        self.find(key).is_some()
    }

    /// The record under `key`, if one stands there.
    pub fn get(&self, key: &str) -> (r: Option<&T>)
        ensures
            match self.lookup(key@) {
                Some(v) => r == Some(&v),
                None => r is None,
            },
    {
        proof {
            position_of_is_first(self.keys(), key@);
        }
        match self.find(key) {
            Some(i) => Some(&self.entries[i].1),
            None => None,
        }
    }

    /// Puts `value` under `key`. Where the key is present its record is
    /// replaced and keeps its place; else key and record go to the end.
    pub fn insert(&mut self, key: String, value: T)
        ensures
            old(self).well_formed() ==> final(self).well_formed(),
            final(self)@ == put(old(self)@, key@, value),
            forall|k: Seq<char>|
                #[trigger] final(self).lookup(k) == if k == key@ {
                    Some(value)
                } else {
                    old(self).lookup(k)
                },
    {
        proof {
            position_of_is_first(self.keys(), key@);
        }
        let ghost before_keys = self.keys();
        match self.find(key.as_str()) {
            Some(i) => {
                self.entries.set(i, (key, value));
                assert(self.keys() =~= before_keys);
                assert forall|k: Seq<char>|
                    #[trigger] self.lookup(k) == if k == key@ {
                        Some(value)
                    } else {
                        old(self).lookup(k)
                    } by {
                    position_of_is_first(before_keys, k);
                }
            },
            None => {
                self.entries.push((key, value));
                assert(self.keys() =~= before_keys.push(key@));
                assert forall|k: Seq<char>|
                    #[trigger] self.lookup(k) == if k == key@ {
                        Some(value)
                    } else {
                        old(self).lookup(k)
                    } by {
                    position_of_is_first(before_keys, k);
                    assert(self.keys().drop_last() =~= before_keys);
                }
            },
        }
    }

    /// The records, in the order in which their keys came.
    pub fn into_values(self) -> (r: Vec<T>)
        ensures
            r@ == self.values(),
    {
        let ghost all = self.entries@;
        let mut out: Vec<T> = Vec::new();
        for entry in it: self.entries
            invariant
                it.seq() == all,
                out@.len() == it.index(),
                forall|j: int| 0 <= j < out@.len() ==> out@[j] == (#[trigger] all[j]).1,
        {
            out.push(entry.1);
        }
        out
    }
}

impl<T: Clone> Clone for MetricTable<T> {
    /// A table with the same keys in the same order, each with a clone of its
    /// record.
    fn clone(&self) -> (r: Self)
        ensures
            r@.len() == self@.len(),
            forall|i: int|
                0 <= i < self@.len() ==> (#[trigger] r@[i]).0 == self@[i].0 && cloned(
                    self@[i].1,
                    r@[i].1,
                ),
    {
        let mut entries: Vec<(String, T)> = Vec::new();
        let mut i: usize = 0;
        while i < self.entries.len()
            invariant
                i <= self.entries.len(),
                entries@.len() == i,
                forall|j: int|
                    0 <= j < i ==> (#[trigger] entries@[j]).0@ == self.entries@[j].0@ && cloned(
                        self.entries@[j].1,
                        entries@[j].1,
                    ),
            decreases self.entries.len() - i,
        {
            let key = self.entries[i].0.clone();
            let value = self.entries[i].1.clone();
            entries.push((key, value));
            i = i + 1;
        }
        MetricTable { entries }
    }
}

impl<T> Default for MetricTable<T> {
    fn default() -> (r: Self)
        ensures
            r@.len() == 0,
            r.well_formed(),
    {
        MetricTable::new()
    }
}

/// The metrics of one run, as rules see them: parts, merges and mutations by
/// table key, disks and queries in the order in which they were collected.
#[derive(Debug)]
pub struct AuditContext {
    pub parts: MetricTable<PartsMetrics>,
    pub merges: MetricTable<MergeMetrics>,
    pub mutations: MetricTable<MutationMetrics>,
    pub disk: Vec<DiskMetrics>,
    pub queries: Vec<QueryMetrics>,
}

/// The model of an [`AuditContext`].
pub struct AuditContextView {
    pub parts: Seq<(Seq<char>, PartsMetrics)>,
    pub merges: Seq<(Seq<char>, MergeMetrics)>,
    pub mutations: Seq<(Seq<char>, MutationMetrics)>,
    pub disk: Seq<DiskMetrics>,
    pub queries: Seq<QueryMetrics>,
}

impl View for AuditContext {
    type V = AuditContextView;

    open spec fn view(&self) -> AuditContextView {
        AuditContextView {
            parts: self.parts@,
            merges: self.merges@,
            mutations: self.mutations@,
            disk: self.disk@,
            queries: self.queries@,
        }
    }
}

impl AuditContext {
    /// Whether the three tables are well formed.
    pub open spec fn well_formed(&self) -> bool {
        &&& self.parts.well_formed()
        &&& self.merges.well_formed()
        &&& self.mutations.well_formed()
    }

    /// A context without metrics.
    pub fn new() -> (r: Self)
        ensures
            r.well_formed(),
            r.parts@.len() == 0,
            r.merges@.len() == 0,
            r.mutations@.len() == 0,
            r.disk@.len() == 0,
            r.queries@.len() == 0,
    {
        AuditContext {
            parts: MetricTable::new(),
            merges: MetricTable::new(),
            mutations: MetricTable::new(),
            disk: Vec::new(),
            queries: Vec::new(),
        }
    }

    /// Puts the parts metrics of a table under the table's key; the last
    /// record of a table wins.
    pub fn add_parts(&mut self, metrics: PartsMetrics)
        ensures
            old(self).well_formed() ==> final(self).well_formed(),
            final(self).parts@ == put(
                old(self).parts@,
                table_key_text(metrics.database@, metrics.table@),
                metrics,
            ),
            final(self).merges == old(self).merges,
            final(self).mutations == old(self).mutations,
            final(self).disk == old(self).disk,
            final(self).queries == old(self).queries,
    {
        let key = table_key(metrics.database.as_str(), metrics.table.as_str());
        self.parts.insert(key, metrics);
    }

    /// Puts the merge metrics of a table under the table's key; the last
    /// record of a table wins.
    pub fn add_merges(&mut self, metrics: MergeMetrics)
        ensures
            old(self).well_formed() ==> final(self).well_formed(),
            final(self).merges@ == put(
                old(self).merges@,
                table_key_text(metrics.database@, metrics.table@),
                metrics,
            ),
            final(self).parts == old(self).parts,
            final(self).mutations == old(self).mutations,
            final(self).disk == old(self).disk,
            final(self).queries == old(self).queries,
    {
        let key = table_key(metrics.database.as_str(), metrics.table.as_str());
        self.merges.insert(key, metrics);
    }

    /// Puts the mutation metrics of a table under the table's key; the last
    /// record of a table wins.
    pub fn add_mutations(&mut self, metrics: MutationMetrics)
        ensures
            old(self).well_formed() ==> final(self).well_formed(),
            final(self).mutations@ == put(
                old(self).mutations@,
                table_key_text(metrics.database@, metrics.table@),
                metrics,
            ),
            final(self).parts == old(self).parts,
            final(self).merges == old(self).merges,
            final(self).disk == old(self).disk,
            final(self).queries == old(self).queries,
    {
        let key = table_key(metrics.database.as_str(), metrics.table.as_str());
        self.mutations.insert(key, metrics);
    }

    /// Replaces the disk metrics.
    pub fn set_disk(&mut self, metrics: Vec<DiskMetrics>)
        ensures
            final(self).disk == metrics,
            final(self).parts == old(self).parts,
            final(self).merges == old(self).merges,
            final(self).mutations == old(self).mutations,
            final(self).queries == old(self).queries,
    {
        self.disk = metrics;
    }

    /// Replaces the query metrics.
    pub fn set_queries(&mut self, metrics: Vec<QueryMetrics>)
        ensures
            final(self).queries == metrics,
            final(self).parts == old(self).parts,
            final(self).merges == old(self).merges,
            final(self).mutations == old(self).mutations,
            final(self).disk == old(self).disk,
    {
        self.queries = metrics;
    }
}

impl Default for AuditContext {
    fn default() -> (r: Self)
        ensures
            r.well_formed(),
            r.parts@.len() == 0,
            r.merges@.len() == 0,
            r.mutations@.len() == 0,
            r.disk@.len() == 0,
            r.queries@.len() == 0,
    {
        AuditContext::new()
    }
}

} // verus!
