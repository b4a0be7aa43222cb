//! The collector of the dependency graph of materialized views.

use crate::collectors::depth::{
    as_nat, bounded_by, depths_in, is_reader, links_of, reads_something, relax_once, DagInput,
};
use crate::report::types::{
    MvDagEdge, MvDagEdgeView, MvDagNode, MvDagNodeView, MvDagSection, MvDagSectionView, TableType,
};
use crate::rules::context::{table_key, table_key_text, MetricTable, KEY_SEPARATOR};
use crate::text::{occurs_in, text_contains};
use vstd::prelude::*;
use vstd::string::StringExecFns;

verus! {

/// Collector of the tables of one database and of what each reads from, read
/// from `system.tables`.
pub struct MvDagCollector;

/// One table of the database, as the tables query returns it.
#[derive(Debug, Clone, PartialEq)]
pub struct TableRow {
    pub database: String,
    pub name: String,
    pub engine: String,
}

/// One dependency, as the dependencies query returns it: the table `name` of
/// `database` reads from `dep_table` of `dep_database`.
#[derive(Debug, Clone, PartialEq)]
pub struct DependencyRow {
    pub database: String,
    pub name: String,
    pub dep_database: String,
    pub dep_table: String,
}

/// The tables query up to the place of the database name.
pub const TABLES_QUERY_HEAD: &'static str = "
            SELECT
                database,
                name,
                engine
            FROM system.tables
            WHERE database = '";

/// The tables query after the database name.
pub const TABLES_QUERY_TAIL: &'static str = "'
            ORDER BY name
            ";

/// The dependencies query up to the place of the database name.
pub const DEPENDENCIES_QUERY_HEAD: &'static str = "
            SELECT
                database,
                name,
                dep_database,
                dep_table
            FROM (
                SELECT
                    database,
                    name,
                    arrayJoin(dependencies_database) AS dep_database,
                    arrayJoin(dependencies_table) AS dep_table
                FROM system.tables
                WHERE database = '";

/// The dependencies query after the database name.
pub const DEPENDENCIES_QUERY_TAIL: &'static str = "' AND notEmpty(dependencies_table)
            )
            ";

/// What stands before the tables query in the evidence text.
pub const EVIDENCE_TABLES_LABEL: &'static str = "Tables: ";

/// What stands between the two queries in the evidence text.
pub const EVIDENCE_DEPENDENCIES_LABEL: &'static str = " | Dependencies: ";

/// The engine name, or the part of one, that marks a materialized view.
pub const MATERIALIZED_VIEW_ENGINE: &'static str = "MaterializedView";

/// The key of a table: `database.name`.
pub open spec fn node_key(table: TableRow) -> Seq<char> {
    table_key_text(table.database@, table.name@)
}

/// The edge that a dependency stands for: from the table that is read to the
/// table that reads.
pub open spec fn edge_of(dependency: DependencyRow) -> MvDagEdgeView {
    MvDagEdgeView {
        from: table_key_text(dependency.dep_database@, dependency.dep_table@),
        to: table_key_text(dependency.database@, dependency.name@),
    }
}

/// The edges of a list of dependencies, in their order.
pub open spec fn edges_text(dependencies: Seq<DependencyRow>) -> Seq<MvDagEdgeView> {
    dependencies.map_values(|d: DependencyRow| edge_of(d))
}

/// The graph of `tables` and `dependencies`; only tables of `database` are
/// relaxed.
pub open spec fn dag_input(
    database: Seq<char>,
    tables: Seq<TableRow>,
    dependencies: Seq<DependencyRow>,
) -> DagInput {
    DagInput {
        scope: database + KEY_SEPARATOR@,
        nodes: tables.map_values(|t: TableRow| node_key(t)),
        links: edges_text(dependencies),
    }
}

/// A materialized view where the engine name holds
/// [`MATERIALIZED_VIEW_ENGINE`], else a table.
pub open spec fn table_type_of(engine: Seq<char>) -> TableType {
    if occurs_in(MATERIALIZED_VIEW_ENGINE@, engine) {
        TableType::MaterializedView
    } else {
        TableType::Table
    }
}

/// The node of `table` in `graph`.
pub open spec fn node_of(graph: DagInput, table: TableRow) -> MvDagNodeView {
    MvDagNodeView {
        name: table.name@,
        database: table.database@,
        table_type: table_type_of(table.engine@),
        engine: table.engine@,
        depth: graph.depth(node_key(table)),
    }
}

/// The greatest depth among `nodes`, and 0 where there is none.
pub open spec fn greatest_depth(nodes: Seq<MvDagNodeView>) -> nat
    decreases nodes.len(),
{
    if nodes.len() == 0 {
        0
    } else {
        let rest = greatest_depth(nodes.drop_last());
        if rest < nodes.last().depth {
            nodes.last().depth
        } else {
            rest
        }
    }
}

/// The number of materialized views among `nodes`.
pub open spec fn views_among(nodes: Seq<MvDagNodeView>) -> nat
    decreases nodes.len(),
{
    if nodes.len() == 0 {
        0
    } else {
        views_among(nodes.drop_last()) + if nodes.last().table_type == TableType::MaterializedView {
            1nat
        } else {
            0nat
        }
    }
}

/// The nodes of `tables` in the graph of `tables` and `dependencies`.
pub open spec fn nodes_of(
    database: Seq<char>,
    tables: Seq<TableRow>,
    dependencies: Seq<DependencyRow>,
) -> Seq<MvDagNodeView> {
    tables.map_values(|t: TableRow| node_of(dag_input(database, tables, dependencies), t))
}

/// The section for `tables` and `dependencies`: one node per table and one
/// edge per dependency, in their order; the greatest depth; the numbers of
/// tables and of materialized views.
pub open spec fn dag_of(
    database: Seq<char>,
    tables: Seq<TableRow>,
    dependencies: Seq<DependencyRow>,
) -> MvDagSectionView {
    let nodes = nodes_of(database, tables, dependencies);
    MvDagSectionView {
        nodes,
        edges: edges_text(dependencies),
        max_depth: greatest_depth(nodes),
        total_tables: (nodes.len() - views_among(nodes)) as nat,
        total_mvs: views_among(nodes),
    }
}

/// The key of a node: `database.name`.
pub open spec fn key_of_node(node: MvDagNodeView) -> Seq<char> {
    table_key_text(node.database, node.name)
}

/// Whether the node at `at` has the depth that its sources give it: 0 where
/// no edge leads to it, else one more than the greatest depth of a node from
/// which an edge leads to it.
pub open spec fn depth_follows_sources(dag: MvDagSectionView, at: int) -> bool {
    let key = key_of_node(dag.nodes[at]);
    if forall|j: int| 0 <= j < dag.edges.len() ==> (#[trigger] dag.edges[j]).to != key {
        dag.nodes[at].depth == 0
    } else {
        &&& forall|j: int, u: int|
            0 <= j < dag.edges.len() && 0 <= u < dag.nodes.len() && (#[trigger] dag.edges[j]).to
                == key && key_of_node(#[trigger] dag.nodes[u]) == dag.edges[j].from
                ==> dag.nodes[u].depth + 1 <= dag.nodes[at].depth
        &&& exists|j: int, u: int|
            0 <= j < dag.edges.len() && 0 <= u < dag.nodes.len() && (#[trigger] dag.edges[j]).to
                == key && key_of_node(#[trigger] dag.nodes[u]) == dag.edges[j].from
                && dag.nodes[u].depth + 1 == dag.nodes[at].depth
    }
}

/// Where no table reads from itself, directly or through others, every
/// dependency joins two tables of the list, and every reading table lies in
/// the database, each node of the section has the depth that its sources give
/// it: a node that reads from nothing has the depth 0, every other node is
/// one deeper than the deepest node it reads from.
pub proof fn node_depths_follow_sources(
    database: Seq<char>,
    tables: Seq<TableRow>,
    dependencies: Seq<DependencyRow>,
    rank: spec_fn(Seq<char>) -> nat,
    at: int,
)
    requires
        0 <= at < tables.len(),
        dag_input(database, tables, dependencies).closed(),
        dag_input(database, tables, dependencies).in_scope(),
        dag_input(database, tables, dependencies).ranked_by(rank),
    ensures
        depth_follows_sources(dag_of(database, tables, dependencies), at),
{
    let graph = dag_input(database, tables, dependencies);
    let dag = dag_of(database, tables, dependencies);
    let key = node_key(tables[at]);
    assert forall|u: int| 0 <= u < dag.nodes.len() implies key_of_node(#[trigger] dag.nodes[u])
        == graph.nodes[u] && dag.nodes[u].depth == graph.depth(graph.nodes[u]) by {}
    graph.depth_is_one_more_than_deepest_source(rank, key);
    if reads_something(graph.links, key) {
        let j = choose|j: int|
            0 <= j < graph.links.len() && (#[trigger] graph.links[j]).to == key && graph.depth(
                graph.links[j].from,
            ) + 1 == graph.depth(key);
        let u = choose|u: int| 0 <= u < graph.nodes.len() && graph.nodes[u] == graph.links[j].from;
        assert(dag.edges[j].to == key && key_of_node(dag.nodes[u]) == dag.edges[j].from
            && dag.nodes[u].depth + 1 == dag.nodes[at].depth);
    }
}

/// There are no more materialized views among nodes than nodes.
pub proof fn views_among_is_bounded(nodes: Seq<MvDagNodeView>)
    ensures
        views_among(nodes) <= nodes.len(),
    decreases nodes.len(),
{
    if nodes.len() > 0 {
        views_among_is_bounded(nodes.drop_last());
    }
}

/// Builds the edges of `dependencies`, in their order.
pub fn edges_of(dependencies: &[DependencyRow]) -> (r: Vec<MvDagEdge>)
    ensures
        links_of(r@) == edges_text(dependencies@),
{
    let mut edges: Vec<MvDagEdge> = Vec::new();
    let mut j: usize = 0;
    while j < dependencies.len()
        invariant
            j <= dependencies.len(),
            links_of(edges@) == edges_text(dependencies@.take(j as int)),
        decreases dependencies.len() - j,
    {
        let d = &dependencies[j];
        let edge = MvDagEdge {
            from: table_key(d.dep_database.as_str(), d.dep_table.as_str()),
            to: table_key(d.database.as_str(), d.name.as_str()),
        };
        edges.push(edge);
        proof {
            let now = links_of(edges@);
            let goal = edges_text(dependencies@.take(j + 1));
            assert(edges_text(dependencies@.take(j as int)).len() == j);
            assert forall|i: int| 0 <= i < now.len() implies now[i] == goal[i] by {
                if i < j {
                    assert(edges_text(dependencies@.take(j as int))[i] == goal[i]);
                }
            }
        }
        j = j + 1;
    }
    edges
}

impl MvDagCollector {
    /// Computes the depth of every key that has one: 0 for a table that reads
    /// from nothing; then, pass by pass, one more than the deepest source for
    /// a table of `database` that reads from tables with a depth. The passes
    /// end when one changes nothing, and at the latest after as many passes as
    /// there are tables.
    pub fn calculate_depths(
        tables: &[TableRow],
        dependencies: &[DependencyRow],
        database: &str,
    ) -> (r: MetricTable<usize>)
        ensures
            r.well_formed(),
            forall|k: Seq<char>|
                as_nat(#[trigger] r.lookup(k)) == dag_input(
                    database@,
                    tables@,
                    dependencies@,
                ).depth_after(tables@.len(), k),
    {
        let ghost graph = dag_input(database@, tables@, dependencies@);
        let edges = edges_of(dependencies);
        let mut scope = String::from_str(database);
        scope.append(KEY_SEPARATOR);
        let mut depths: MetricTable<usize> = MetricTable::new();
        let mut i: usize = 0;
        while i < tables.len()
            invariant
                i <= tables.len(),
                depths.well_formed(),
                graph == dag_input(database@, tables@, dependencies@),
                links_of(edges@) == graph.links,
                forall|k: Seq<char>|
                    #[trigger] depths.lookup(k) == if graph.nodes.take(i as int).contains(k)
                        && !reads_something(graph.links, k) {
                        Some(0usize)
                    } else {
                        None
                    },
            decreases tables.len() - i,
        {
            let key = table_key(tables[i].database.as_str(), tables[i].name.as_str());
            let ghost earlier = graph.nodes.take(i as int);
            let ghost upto = graph.nodes.take(i + 1);
            assert forall|k: Seq<char>| upto.contains(k) == (earlier.contains(k) || k == key@) by {
                if k == key@ {
                    assert(upto[i as int] == k);
                }
            }
            if !is_reader(&edges, key.as_str()) {
                depths.insert(key, 0);
            }
            i = i + 1;
        }
        assert(graph.nodes.take(tables.len() as int) =~= graph.nodes);
        let mut pass: usize = 0;
        let mut changed = true;
        while changed && pass < tables.len()
            invariant
                pass <= tables.len(),
                depths.well_formed(),
                graph == dag_input(database@, tables@, dependencies@),
                links_of(edges@) == graph.links,
                scope@ == graph.scope,
                bounded_by(depths, pass as nat),
                forall|k: Seq<char>|
                    as_nat(#[trigger] depths.lookup(k)) == graph.depth_after(pass as nat, k),
                !changed ==> pass > 0 && graph.settled_after((pass - 1) as nat),
            decreases tables.len() - pass,
        {
            let ghost held = depths;
            changed = relax_once(&edges, scope.as_str(), &mut depths, pass);
            proof {
                assert(depths_in(held) =~= graph.depths_after(pass as nat));
                if !changed {
                    assert forall|k: Seq<char>|
                        graph.depth_after((pass + 1) as nat, k) == graph.depth_after(
                            pass as nat,
                            k,
                        ) by {
                        assert(depths.lookup(k) == held.lookup(k));
                    }
                }
            }
            pass = pass + 1;
        }
        proof {
            if pass < tables.len() {
                graph.settled_stays((pass - 1) as nat, tables@.len());
                graph.settled_stays((pass - 1) as nat, pass as nat);
            }
        }
        depths
    }

    /// Assembles the graph section: one node per table, a materialized view
    /// where the engine says so, with its depth; one edge per dependency; the
    /// greatest depth of a node; the numbers of tables and materialized views.
    pub fn build_dag(database: &str, tables: Vec<TableRow>, dependencies: Vec<DependencyRow>) -> (r:
        MvDagSection)
        ensures
            r@ == dag_of(database@, tables@, dependencies@),
    {
        let ghost graph = dag_input(database@, tables@, dependencies@);
        let ghost all = nodes_of(database@, tables@, dependencies@);
        let depths = Self::calculate_depths(tables.as_slice(), dependencies.as_slice(), database);
        let mut nodes: Vec<MvDagNode> = Vec::new();
        let mut max_depth: usize = 0;
        let mut mv_count: usize = 0;
        let mut i: usize = 0;
        while i < tables.len()
            invariant
                i <= tables.len(),
                graph == dag_input(database@, tables@, dependencies@),
                all == nodes_of(database@, tables@, dependencies@),
                nodes@.map_values(|n: MvDagNode| n@) == all.take(i as int),
                max_depth == greatest_depth(all.take(i as int)),
                mv_count == views_among(all.take(i as int)),
                mv_count <= i,
                forall|k: Seq<char>|
                    as_nat(#[trigger] depths.lookup(k)) == graph.depth_after(tables@.len(), k),
            decreases tables.len() - i,
        {
            let table = &tables[i];
            let key = table_key(table.database.as_str(), table.name.as_str());
            let depth = match depths.get(key.as_str()) {
                Some(d) => *d,
                None => 0,
            };
            let table_type = if text_contains(table.engine.as_str(), MATERIALIZED_VIEW_ENGINE) {
                TableType::MaterializedView
            } else {
                TableType::Table
            };
            let node = MvDagNode {
                name: table.name.clone(),
                database: table.database.clone(),
                table_type,
                engine: table.engine.clone(),
                depth,
            };
            proof {
                assert(all.take(i + 1).drop_last() =~= all.take(i as int));
            }
            if max_depth < depth {
                max_depth = depth;
            }
            if table_type == TableType::MaterializedView {
                mv_count = mv_count + 1;
            }
            nodes.push(node);
            i = i + 1;
        }
        assert(all.take(tables.len() as int) =~= all);
        let edges = edges_of(dependencies.as_slice());
        let r = MvDagSection {
            nodes,
            edges,
            max_depth,
            total_tables: tables.len() - mv_count,
            total_mvs: mv_count,
        };
        r
    }

    /// The query that lists the tables of `database`.
    pub open spec fn tables_query_text(database: Seq<char>) -> Seq<char> {
        TABLES_QUERY_HEAD@ + database + TABLES_QUERY_TAIL@
    }

    /// The query that lists the dependencies of the tables of `database`.
    pub open spec fn dependencies_query_text(database: Seq<char>) -> Seq<char> {
        DEPENDENCIES_QUERY_HEAD@ + database + DEPENDENCIES_QUERY_TAIL@
    }

    /// The text that the evidence ledger records for the two queries.
    pub open spec fn evidence_text(database: Seq<char>) -> Seq<char> {
        EVIDENCE_TABLES_LABEL@ + Self::tables_query_text(database) + EVIDENCE_DEPENDENCIES_LABEL@
            + Self::dependencies_query_text(database)
    }

    /// The two queries are determined by the database: queries built for the
    /// same database are the same text.
    pub proof fn queries_are_determined(
        database: Seq<char>,
        first_tables: Seq<char>,
        second_tables: Seq<char>,
        first_dependencies: Seq<char>,
        second_dependencies: Seq<char>,
    )
        requires
            first_tables == Self::tables_query_text(database),
            second_tables == Self::tables_query_text(database),
            first_dependencies == Self::dependencies_query_text(database),
            second_dependencies == Self::dependencies_query_text(database),
        ensures
            first_tables == second_tables,
            first_dependencies == second_dependencies,
    {
    }

    /// Builds the query that lists every table of `database` with its engine.
    pub fn build_tables_query(database: &str) -> (r: String)
        ensures
            r@ == Self::tables_query_text(database@),
    {
        let mut out = String::from_str(TABLES_QUERY_HEAD);
        out.append(database);
        out.append(TABLES_QUERY_TAIL);
        out
    }

    /// Builds the query that lists, for every table of `database` that reads
    /// from others, one row per table it reads from.
    pub fn build_dependencies_query(database: &str) -> (r: String)
        ensures
            r@ == Self::dependencies_query_text(database@),
    {
        let mut out = String::from_str(DEPENDENCIES_QUERY_HEAD);
        out.append(database);
        out.append(DEPENDENCIES_QUERY_TAIL);
        out
    }

    /// The single text under which the evidence ledger records both queries.
    pub fn sql(database: &str) -> (r: String)
        ensures
            r@ == Self::evidence_text(database@),
    {
        let mut out = String::from_str(EVIDENCE_TABLES_LABEL);
        let tables = Self::build_tables_query(database);
        out.append(tables.as_str());
        out.append(EVIDENCE_DEPENDENCIES_LABEL);
        let dependencies = Self::build_dependencies_query(database);
        out.append(dependencies.as_str());
        out
    }
}

} // verus!
