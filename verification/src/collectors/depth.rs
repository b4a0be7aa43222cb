//! Depths in the dependency graph: the model, and the relaxation that
//! computes it.

use crate::report::types::{MvDagEdge, MvDagEdgeView};
use crate::rules::context::MetricTable;
use crate::text::{begins_with, same_text, text_starts_with};
use vstd::prelude::*;

verus! {

/// The larger of a running maximum and one more depth, where either may be
/// missing.
pub open spec fn deeper(best: Option<nat>, depth: Option<nat>) -> Option<nat> {
    match depth {
        Some(d) => match best {
            Some(b) => if b < d {
                Some(d)
            } else {
                Some(b)
            },
            None => Some(d),
        },
        None => best,
    }
}

/// The greatest depth among the sources of `key` that have a depth, looking
/// at the first `upto` links only.
pub open spec fn deepest_source(
    depth_of: spec_fn(Seq<char>) -> Option<nat>,
    links: Seq<MvDagEdgeView>,
    key: Seq<char>,
    upto: nat,
) -> Option<nat>
    decreases upto,
{
    if upto == 0 || upto > links.len() {
        None
    } else {
        let rest = deepest_source(depth_of, links, key, (upto - 1) as nat);
        if links[upto - 1].to == key {
            deeper(rest, depth_of(links[upto - 1].from))
        } else {
            rest
        }
    }
}

/// The depth of a table after one relaxation: one more than its deepest
/// source where that is more than it had, else what it had.
pub open spec fn raised(before: Option<nat>, deepest: Option<nat>) -> Option<nat> {
    match deepest {
        Some(d) => match before {
            Some(b) => if b < d + 1 {
                Some(d + 1)
            } else {
                Some(b)
            },
            None => Some(d + 1),
        },
        None => before,
    }
}

/// Whether `key` is the reading side of some link.
pub open spec fn reads_something(links: Seq<MvDagEdgeView>, key: Seq<char>) -> bool {
    exists|j: int| 0 <= j < links.len() && (#[trigger] links[j]).to == key
}

/// The depth of `key` after one pass over the links, given the depths before
/// the pass. Only a table that reads from others and whose key begins with
/// `scope` is relaxed.
pub open spec fn relaxed(
    scope: Seq<char>,
    links: Seq<MvDagEdgeView>,
    depth_of: spec_fn(Seq<char>) -> Option<nat>,
    key: Seq<char>,
) -> Option<nat> {
    if reads_something(links, key) && begins_with(key, scope) {
        raised(depth_of(key), deepest_source(depth_of, links, key, links.len()))
    } else {
        depth_of(key)
    }
}

/// The graph that depths are computed on: the keys of the tables, the links
/// between keys, and the prefix of the keys that may be relaxed.
pub struct DagInput {
    pub scope: Seq<char>,
    pub nodes: Seq<Seq<char>>,
    pub links: Seq<MvDagEdgeView>,
}

impl DagInput {
    /// The depth before the first pass: 0 for a table that reads from
    /// nothing, none for every other key.
    pub open spec fn initial_depth(self, key: Seq<char>) -> Option<nat> {
        if self.nodes.contains(key) && !reads_something(self.links, key) {
            Some(0)
        } else {
            None
        }
    }

    /// The depth of `key` after `passes` passes.
    pub open spec fn depth_after(self, passes: nat, key: Seq<char>) -> Option<nat>
        decreases passes, 0nat,
    {
        if passes == 0 {
            self.initial_depth(key)
        } else {
            relaxed(self.scope, self.links, self.depths_after((passes - 1) as nat), key)
        }
    }

    /// The depths after `passes` passes, as a function of the key.
    pub open spec fn depths_after(self, passes: nat) -> spec_fn(Seq<char>) -> Option<nat>
        decreases passes, 1nat,
    {
        |k: Seq<char>| self.depth_after(passes, k)
    }

    /// Whether a further pass after `passes` passes changes no depth.
    pub open spec fn settled_after(self, passes: nat) -> bool {
        forall|k: Seq<char>| self.depth_after(passes + 1, k) == self.depth_after(passes, k)
    }

    /// The depth of `key`: what it has after as many passes as there are
    /// tables, and 0 where it has none then.
    pub open spec fn depth(self, key: Seq<char>) -> nat {
        match self.depth_after(self.nodes.len(), key) {
            Some(d) => d,
            None => 0,
        }
    }

    /// Once a pass changes nothing, no later pass does.
    pub proof fn settled_stays(self, passes: nat, later: nat)
        requires
            self.settled_after(passes),
            passes <= later,
        ensures
            forall|k: Seq<char>| self.depth_after(later, k) == self.depth_after(passes, k),
        decreases later,
    {
        if passes < later {
            self.settled_stays(passes, (later - 1) as nat);
            assert forall|k: Seq<char>|
                #[trigger] self.depths_after((later - 1) as nat)(k) == self.depths_after(passes)(
                    k,
                ) by {
                assert(self.depth_after((later - 1) as nat, k) == self.depth_after(passes, k));
            }
            assert(self.depths_after((later - 1) as nat) =~= self.depths_after(passes));
        }
    }
}

/// The deepest source does not depend on the depths of keys that are no
/// source of `key`.
pub proof fn deepest_source_agrees(
    first: spec_fn(Seq<char>) -> Option<nat>,
    second: spec_fn(Seq<char>) -> Option<nat>,
    links: Seq<MvDagEdgeView>,
    key: Seq<char>,
    upto: nat,
)
    requires
        upto <= links.len(),
        forall|j: int|
            0 <= j < upto && (#[trigger] links[j]).to == key ==> first(links[j].from) == second(
                links[j].from,
            ),
    ensures
        deepest_source(first, links, key, upto) == deepest_source(second, links, key, upto),
    decreases upto,
{
    if upto > 0 {
        deepest_source_agrees(first, second, links, key, (upto - 1) as nat);
    }
}

impl DagInput {
    /// Whether both ends of every link are tables of the graph.
    pub open spec fn closed(self) -> bool {
        forall|j: int|
            0 <= j < self.links.len() ==> self.nodes.contains((#[trigger] self.links[j]).from)
                && self.nodes.contains(self.links[j].to)
    }

    /// Whether the reading side of every link lies in the scope.
    pub open spec fn in_scope(self) -> bool {
        forall|j: int|
            0 <= j < self.links.len() ==> begins_with((#[trigger] self.links[j]).to, self.scope)
    }

    /// Whether `rank` numbers the tables below their count so that every
    /// table has a greater number than each table it reads from. A graph has
    /// such a numbering exactly where no table reads from itself, directly or
    /// through others.
    pub open spec fn ranked_by(self, rank: spec_fn(Seq<char>) -> nat) -> bool {
        &&& forall|j: int|
            0 <= j < self.links.len() ==> rank((#[trigger] self.links[j]).from) < rank(
                self.links[j].to,
            )
        &&& forall|i: int| 0 <= i < self.nodes.len() ==> rank(#[trigger] self.nodes[i]) < self.nodes.len()
    }

    /// Whether `key` has a depth after `passes` passes that the next pass
    /// keeps, and that is more than the depth of each of its sources.
    pub open spec fn settled_at(self, passes: nat, key: Seq<char>) -> bool {
        &&& self.depth_after(passes, key) is Some
        &&& self.depth_after(passes + 1, key) == self.depth_after(passes, key)
        &&& forall|j: int|
            0 <= j < self.links.len() && (#[trigger] self.links[j]).to == key ==> match self.depth_after(
                passes,
                self.links[j].from,
            ) {
                Some(e) => e + 1 <= self.depth_after(passes, key)->0,
                None => false,
            }
    }

    /// A pass lowers no depth and takes none away.
    pub proof fn depth_grows(self, passes: nat, key: Seq<char>)
        ensures
            match self.depth_after(passes, key) {
                Some(d) => match self.depth_after(passes + 1, key) {
                    Some(e) => d <= e,
                    None => false,
                },
                None => true,
            },
    {
    }

    /// A key that reads from nothing keeps its first depth.
    pub proof fn root_keeps_depth(self, passes: nat, key: Seq<char>)
        requires
            !reads_something(self.links, key),
        ensures
            self.depth_after(passes, key) == self.initial_depth(key),
        decreases passes,
    {
        if passes > 0 {
            self.root_keeps_depth((passes - 1) as nat, key);
        }
    }

    /// The depth of a key that reads from others is at most one more than
    /// the depth of one of its sources.
    pub proof fn depth_has_a_source(self, passes: nat, key: Seq<char>)
        requires
            reads_something(self.links, key),
        ensures
            match self.depth_after(passes, key) {
                Some(d) => exists|j: int|
                    0 <= j < self.links.len() && (#[trigger] self.links[j]).to == key
                        && match self.depth_after(passes, self.links[j].from) {
                        Some(e) => d <= e + 1,
                        None => false,
                    },
                None => true,
            },
        decreases passes,
    {
        if passes > 0 {
            let before = (passes - 1) as nat;
            let depths = self.depths_after(before);
            self.depth_has_a_source(before, key);
            match self.depth_after(passes, key) {
                Some(d) => {
                    let deepest = deepest_source(depths, self.links, key, self.links.len());
                    if begins_with(key, self.scope) && deepest is Some && d == deepest->0 + 1 {
                        deepest_source_is_greatest(depths, self.links, key, self.links.len());
                        let j = choose|j: int|
                            0 <= j < self.links.len() && (#[trigger] self.links[j]).to == key
                                && depths(self.links[j].from) == deepest;
                        self.depth_grows(before, self.links[j].from);
                    } else {
                        let j = choose|j: int|
                            0 <= j < self.links.len() && (#[trigger] self.links[j]).to == key
                                && match self.depth_after(before, self.links[j].from) {
                                Some(e) => d <= e + 1,
                                None => false,
                            };
                        self.depth_grows(before, self.links[j].from);
                    }
                },
                None => {},
            }
        }
    }

    /// In a closed graph within the scope, a table is settled after more
    /// passes than its rank.
    pub proof fn settles(self, rank: spec_fn(Seq<char>) -> nat, passes: nat, key: Seq<char>)
        requires
            self.closed(),
            self.in_scope(),
            self.ranked_by(rank),
            self.nodes.contains(key),
            rank(key) < passes,
        ensures
            self.settled_at(passes, key),
        decreases passes, rank(key),
    {
        if !reads_something(self.links, key) {
            self.root_keeps_depth(passes, key);
            self.root_keeps_depth(passes + 1, key);
        } else {
            let before = (passes - 1) as nat;
            let earlier = self.depths_after(before);
            let now = self.depths_after(passes);
            let count = self.links.len();
            assert forall|j: int| 0 <= j < count && (#[trigger] self.links[j]).to == key implies {
                &&& earlier(self.links[j].from) is Some
                &&& now(self.links[j].from) == earlier(self.links[j].from)
            } by {
                self.settles(rank, before, self.links[j].from);
            }
            deepest_source_is_greatest(earlier, self.links, key, count);
            deepest_source_agrees(now, earlier, self.links, key, count);
        }
    }

    /// In a graph without a cycle whose links join tables of the graph and
    /// read into the scope, a table that reads from nothing has the depth 0,
    /// and every other table is one deeper than the deepest table it reads
    /// from.
    pub proof fn depth_is_one_more_than_deepest_source(
        self,
        rank: spec_fn(Seq<char>) -> nat,
        key: Seq<char>,
    )
        requires
            self.closed(),
            self.in_scope(),
            self.ranked_by(rank),
            self.nodes.contains(key),
        ensures
            !reads_something(self.links, key) ==> self.depth(key) == 0,
            reads_something(self.links, key) ==> {
                &&& forall|j: int|
                    0 <= j < self.links.len() && (#[trigger] self.links[j]).to == key ==> self.depth(
                        self.links[j].from,
                    ) + 1 <= self.depth(key)
                &&& exists|j: int|
                    0 <= j < self.links.len() && (#[trigger] self.links[j]).to == key && self.depth(
                        self.links[j].from,
                    ) + 1 == self.depth(key)
            },
    {
        let passes = self.nodes.len();
        self.settles(rank, passes, key);
        if !reads_something(self.links, key) {
            self.root_keeps_depth(passes, key);
        } else {
            self.depth_has_a_source(passes, key);
        }
    }
}

/// The links that a list of edges stands for.
pub open spec fn links_of(edges: Seq<MvDagEdge>) -> Seq<MvDagEdgeView> {
    edges.map_values(|e: MvDagEdge| e@)
}

/// A depth as a natural number.
pub open spec fn as_nat(depth: Option<usize>) -> Option<nat> {
    match depth {
        Some(d) => Some(d as nat),
        None => None,
    }
}

/// The depths that a table of depths holds, as a function of the key.
pub open spec fn depths_in(depths: MetricTable<usize>) -> spec_fn(Seq<char>) -> Option<nat> {
    |k: Seq<char>| as_nat(depths.lookup(k))
}

/// The deepest source is the depth of some source, and no source is deeper.
pub proof fn deepest_source_is_greatest(
    depth_of: spec_fn(Seq<char>) -> Option<nat>,
    links: Seq<MvDagEdgeView>,
    key: Seq<char>,
    upto: nat,
)
    requires
        upto <= links.len(),
    ensures
        match deepest_source(depth_of, links, key, upto) {
            Some(d) => {
                &&& exists|j: int|
                    0 <= j < upto && (#[trigger] links[j]).to == key && depth_of(links[j].from)
                        == Some(d)
                &&& forall|j: int|
                    0 <= j < upto && (#[trigger] links[j]).to == key ==> match depth_of(
                        links[j].from,
                    ) {
                        Some(e) => e <= d,
                        None => true,
                    }
            },
            None => forall|j: int|
                0 <= j < upto && (#[trigger] links[j]).to == key ==> depth_of(links[j].from)
                    is None,
        },
    decreases upto,
{
    if upto > 0 {
        deepest_source_is_greatest(depth_of, links, key, (upto - 1) as nat);
    }
}

/// Whether `key` is the reading side of some edge.
pub(crate) fn is_reader(edges: &Vec<MvDagEdge>, key: &str) -> (r: bool)
    ensures
        r == reads_something(links_of(edges@), key@),
{
    let mut j: usize = 0;
    while j < edges.len()
        invariant
            j <= edges.len(),
            forall|i: int| 0 <= i < j ==> (#[trigger] links_of(edges@)[i]).to != key@,
        decreases edges.len() - j,
    {
        if same_text(edges[j].to.as_str(), key) {
            assert(links_of(edges@)[j as int].to == key@);
            return true;
        }
        j = j + 1;
    }
    false
}

/// The greatest depth that `depths` holds for a source of `key`.
pub(crate) fn deepest_source_of(edges: &Vec<MvDagEdge>, depths: &MetricTable<usize>, key: &str) -> (r:
    Option<usize>)
    ensures
        as_nat(r) == deepest_source(depths_in(*depths), links_of(edges@), key@, edges@.len() as nat),
{
    let mut best: Option<usize> = None;
    let mut j: usize = 0;
    while j < edges.len()
        invariant
            j <= edges.len(),
            as_nat(best) == deepest_source(depths_in(*depths), links_of(edges@), key@, j as nat),
        decreases edges.len() - j,
    {
        if same_text(edges[j].to.as_str(), key) {
            match depths.get(edges[j].from.as_str()) {
                Some(d) => {
                    best =
                    match best {
                        Some(b) => if b < *d {
                            Some(*d)
                        } else {
                            Some(b)
                        },
                        None => Some(*d),
                    };
                },
                None => {},
            }
        }
        j = j + 1;
    }
    best
}

/// Whether every depth that `depths` holds is at most `bound`.
pub open spec fn bounded_by(depths: MetricTable<usize>, bound: nat) -> bool {
    forall|k: Seq<char>|
        match #[trigger] depths.lookup(k) {
            Some(d) => d <= bound,
            None => true,
        }
}

/// The depth that a pass gives the reading side of the edge `j`, where the
/// pass changes it.
fn raise_of(
    edges: &Vec<MvDagEdge>,
    scope: &str,
    depths: &MetricTable<usize>,
    j: usize,
    bound: usize,
) -> (r: Option<usize>)
    requires
        j < edges.len(),
        bounded_by(*depths, bound as nat),
        bound < usize::MAX,
    ensures
        match r {
            Some(d) => Some(d as nat) == relaxed(
                scope@,
                links_of(edges@),
                depths_in(*depths),
                edges@[j as int].to@,
            ) && as_nat(depths.lookup(edges@[j as int].to@)) != Some(d as nat) && d <= bound + 1,
            None => relaxed(scope@, links_of(edges@), depths_in(*depths), edges@[j as int].to@)
                == as_nat(depths.lookup(edges@[j as int].to@)),
        },
{
    let key = edges[j].to.as_str();
    if !text_starts_with(key, scope) {
        return None;
    }
    let deepest = deepest_source_of(edges, depths, key);
    proof {
        deepest_source_is_greatest(
            depths_in(*depths),
            links_of(edges@),
            key@,
            edges@.len() as nat,
        );
    }
    match deepest {
        Some(d) => {
            let candidate = d + 1;
            match depths.get(key) {
                Some(b) => if *b < candidate {
                    Some(candidate)
                } else {
                    None
                },
                None => Some(candidate),
            }
        },
        None => None,
    }
}

/// One pass of the relaxation: every table that reads from a table with a
/// depth gets one more than the deepest of them, unless it has that much
/// already. All depths are read before any is written. Returns whether a
/// depth changed.
pub(crate) fn relax_once(
    edges: &Vec<MvDagEdge>,
    scope: &str,
    depths: &mut MetricTable<usize>,
    bound: usize,
) -> (changed: bool)
    requires
        old(depths).well_formed(),
        bounded_by(*old(depths), bound as nat),
        bound < usize::MAX,
    ensures
        final(depths).well_formed(),
        bounded_by(*final(depths), (bound + 1) as nat),
        forall|k: Seq<char>|
            as_nat(#[trigger] final(depths).lookup(k)) == relaxed(
                scope@,
                links_of(edges@),
                depths_in(*old(depths)),
                k,
            ),
        !changed ==> forall|k: Seq<char>|
            #[trigger] final(depths).lookup(k) == old(depths).lookup(k),
{
    let ghost links = links_of(edges@);
    let ghost before = depths_in(*depths);
    let ghost start = *depths;
    // Read: the edges whose reading side is raised, with the new depth.
    let mut raises: Vec<(usize, usize)> = Vec::new();
    let mut j: usize = 0;
    while j < edges.len()
        invariant
            j <= edges.len(),
            *depths == start,
            links == links_of(edges@),
            before == depths_in(start),
            bounded_by(start, bound as nat),
            bound < usize::MAX,
            forall|u: int|
                0 <= u < raises@.len() ==> {
                    &&& (#[trigger] raises@[u]).0 < edges@.len()
                    &&& Some(raises@[u].1 as nat) == relaxed(
                        scope@,
                        links,
                        before,
                        links[raises@[u].0 as int].to,
                    )
                    &&& raises@[u].1 <= bound + 1
                },
            forall|i: int|
                0 <= i < j ==> relaxed(scope@, links, before, (#[trigger] links[i]).to) == before(
                    links[i].to,
                ) || exists|u: int|
                    0 <= u < raises@.len() && links[(#[trigger] raises@[u]).0 as int].to
                        == links[i].to,
        decreases edges.len() - j,
    {
        let ghost earlier = raises@;
        match raise_of(edges, scope, depths, j, bound) {
            Some(d) => {
                raises.push((j, d));
                assert(raises@[earlier.len() as int].0 == j);
                assert forall|i: int| 0 <= i < j + 1 implies relaxed(
                    scope@,
                    links,
                    before,
                    (#[trigger] links[i]).to,
                ) == before(links[i].to) || exists|u: int|
                    0 <= u < raises@.len() && links[(#[trigger] raises@[u]).0 as int].to
                        == links[i].to by {
                    if i < j {
                        if relaxed(scope@, links, before, links[i].to) != before(links[i].to) {
                            let u = choose|u: int|
                                0 <= u < earlier.len() && links[(#[trigger] earlier[u]).0 as int].to
                                    == links[i].to;
                            assert(raises@[u] == earlier[u]);
                        }
                    }
                }
            },
            None => {},
        }
        j = j + 1;
    }
    // Write.
    let changed = raises.len() > 0;
    let mut u: usize = 0;
    while u < raises.len()
        invariant
            u <= raises.len(),
            depths.well_formed(),
            links == links_of(edges@),
            before == depths_in(start),
            bounded_by(start, bound as nat),
            forall|w: int|
                0 <= w < raises@.len() ==> {
                    &&& (#[trigger] raises@[w]).0 < edges@.len()
                    &&& Some(raises@[w].1 as nat) == relaxed(
                        scope@,
                        links,
                        before,
                        links[raises@[w].0 as int].to,
                    )
                    &&& raises@[w].1 <= bound + 1
                },
            forall|k: Seq<char>|
                as_nat(#[trigger] depths.lookup(k)) == if exists|w: int|
                    0 <= w < u && links[(#[trigger] raises@[w]).0 as int].to == k {
                    relaxed(scope@, links, before, k)
                } else {
                    before(k)
                },
        decreases raises.len() - u,
    {
        let (at, depth) = raises[u];
        let key = edges[at].to.clone();
        depths.insert(key, depth);
        u = u + 1;
    }
    changed
}

} // verus!
