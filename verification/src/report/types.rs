//! The records of the report document, with the models that contracts speak of.

use crate::report::decimal::Decimal;
use crate::report::stamp::{fresh_report_id, now_rfc3339};
use crate::text::texts_of;
use vstd::prelude::*;
use vstd::string::StringExecFns;

verus! {

/// The text of an optional string.
pub open spec fn text_of_option(o: Option<String>) -> Option<Seq<char>> {
    match o {
        Some(s) => Some(s@),
        None => None,
    }
}

/// A copy of an optional string.
pub fn copy_text_option(o: &Option<String>) -> (r: Option<String>)
    ensures
        r == *o,
{
    match o {
        Some(s) => Some(s.clone()),
        None => None,
    }
}

/// The schema version that every report carries.
pub const REPORT_VERSION: &'static str = "1.0.0";

/// The audit report: targets, summary, sections, findings, actions, evidence.
#[derive(Debug, Clone, PartialEq)]
pub struct Report {
    pub report_version: String,
    pub report_id: String,
    pub generated_at: String,
    pub targets: Targets,
    pub summary: Summary,
    pub sections: Sections,
    pub findings: Vec<Finding>,
    pub actions: Vec<Action>,
    pub evidence: Vec<Evidence>,
}

impl Report {
    /// An empty report on `targets`: current schema version, a fresh
    /// identifier of 36 characters, the current instant as generation time,
    /// status healthy, no section, finding, action or evidence.
    pub fn new(targets: Targets) -> (r: Self)
        ensures
            r.report_version@ == REPORT_VERSION@,
            r.report_id@.len() == 36,
            r.targets == targets,
            r.summary == Summary::healthy(),
            r.sections == Sections::empty(),
            r.findings@.len() == 0,
            r.actions@.len() == 0,
            r.evidence@.len() == 0,
    {
        Report {
            report_version: String::from_str(REPORT_VERSION),
            report_id: fresh_report_id(),
            generated_at: now_rfc3339(),
            targets,
            summary: Summary::default(),
            sections: Sections::default(),
            findings: Vec::new(),
            actions: Vec::new(),
            evidence: Vec::new(),
        }
    }
}

/// What was audited: the endpoint, the database, and the tables named by the
/// operator, in their order.
#[derive(Debug, Clone, PartialEq)]
pub struct Targets {
    pub endpoint: String,
    pub database: String,
    pub tables: Vec<String>,
}

/// Overall status and finding counts.
#[derive(Debug, Clone, Copy, PartialEq, Eq, Structural)]
pub struct Summary {
    pub status: ReportStatus,
    pub findings_count: usize,
    pub critical_count: usize,
    pub warning_count: usize,
}

impl Summary {
    /// The summary of a report without findings.
    pub open spec fn healthy() -> Summary {
        Summary {
            status: ReportStatus::Healthy,
            findings_count: 0,
            critical_count: 0,
            warning_count: 0,
        }
    }
}

impl Default for Summary {
    fn default() -> (r: Self)
        ensures
            r == Summary::healthy(),
    {
        Summary {
            status: ReportStatus::Healthy,
            findings_count: 0,
            critical_count: 0,
            warning_count: 0,
        }
    }
}

/// Overall report status.
#[derive(Debug, Clone, Copy, PartialEq, Eq, Structural)]
pub enum ReportStatus {
    Healthy,
    Warning,
    Critical,
}

impl Default for ReportStatus {
    fn default() -> (r: Self)
        ensures
            r == ReportStatus::Healthy,
    {
        ReportStatus::Healthy
    }
}

/// The six optional sub-reports.
#[derive(Debug, Clone, PartialEq)]
pub struct Sections {
    pub parts: Option<PartsSection>,
    pub merges: Option<MergesSection>,
    pub mutations: Option<MutationsSection>,
    pub disk: Option<DiskSection>,
    pub query_log: Option<QueryLogSection>,
    pub mv_dag: Option<MvDagSection>,
}

impl Sections {
    /// No section at all.
    pub open spec fn empty() -> Sections {
        Sections {
            parts: None,
            merges: None,
            mutations: None,
            disk: None,
            query_log: None,
            mv_dag: None,
        }
    }
}

impl Default for Sections {
    fn default() -> (r: Self)
        ensures
            r == Sections::empty(),
    {
        Sections {
            parts: None,
            merges: None,
            mutations: None,
            disk: None,
            query_log: None,
            mv_dag: None,
        }
    }
}

/// Parts metrics, one record per table.
#[derive(Debug, Clone, PartialEq)]
pub struct PartsSection {
    pub tables: Vec<PartsMetrics>,
}

impl Default for PartsSection {
    fn default() -> (r: Self)
        ensures
            r.tables@.len() == 0,
    {
        PartsSection { tables: Vec::new() }
    }
}

/// Part counts and sizes of one table.
#[derive(Debug, PartialEq)]
pub struct PartsMetrics {
    pub database: String,
    pub table: String,
    pub parts_count: u64,
    pub active_parts: u64,
    pub total_rows: u64,
    pub bytes_on_disk: u64,
    pub oldest_part: Option<String>,
    pub newest_part: Option<String>,
}

impl Clone for PartsMetrics {
    fn clone(&self) -> (r: Self)
        ensures
            r == *self,
    {
        PartsMetrics {
            database: self.database.clone(),
            table: self.table.clone(),
            parts_count: self.parts_count,
            active_parts: self.active_parts,
            total_rows: self.total_rows,
            bytes_on_disk: self.bytes_on_disk,
            oldest_part: copy_text_option(&self.oldest_part),
            newest_part: copy_text_option(&self.newest_part),
        }
    }
}

impl Default for PartsMetrics {
    fn default() -> (r: Self)
        ensures
            r.database@.len() == 0,
            r.table@.len() == 0,
            r.parts_count == 0,
            r.active_parts == 0,
            r.total_rows == 0,
            r.bytes_on_disk == 0,
            r.oldest_part is None,
            r.newest_part is None,
    {
        PartsMetrics {
            database: String::new(),
            table: String::new(),
            parts_count: 0,
            active_parts: 0,
            total_rows: 0,
            bytes_on_disk: 0,
            oldest_part: None,
            newest_part: None,
        }
    }
}

/// Merge metrics, one record per table.
#[derive(Debug, Clone, PartialEq)]
pub struct MergesSection {
    pub tables: Vec<MergeMetrics>,
}

impl Default for MergesSection {
    fn default() -> (r: Self)
        ensures
            r.tables@.len() == 0,
    {
        MergesSection { tables: Vec::new() }
    }
}

/// The running merges of one table. The longest elapsed time is in seconds.
#[derive(Debug, PartialEq)]
pub struct MergeMetrics {
    pub database: String,
    pub table: String,
    pub merges_in_queue: u64,
    pub merge_rows_read: u64,
    pub merge_bytes_read: u64,
    pub max_merge_elapsed_sec: Decimal,
}

impl Clone for MergeMetrics {
    fn clone(&self) -> (r: Self)
        ensures
            r == *self,
    {
        MergeMetrics {
            database: self.database.clone(),
            table: self.table.clone(),
            merges_in_queue: self.merges_in_queue,
            merge_rows_read: self.merge_rows_read,
            merge_bytes_read: self.merge_bytes_read,
            max_merge_elapsed_sec: self.max_merge_elapsed_sec,
        }
    }
}

impl Default for MergeMetrics {
    fn default() -> (r: Self)
        ensures
            r.database@.len() == 0,
            r.table@.len() == 0,
            r.merges_in_queue == 0,
            r.merge_rows_read == 0,
            r.merge_bytes_read == 0,
            r.max_merge_elapsed_sec.hundredths == 0,
    {
        MergeMetrics {
            database: String::new(),
            table: String::new(),
            merges_in_queue: 0,
            merge_rows_read: 0,
            merge_bytes_read: 0,
            max_merge_elapsed_sec: Decimal { hundredths: 0 },
        }
    }
}

/// Mutation metrics, one record per table.
#[derive(Debug, Clone, PartialEq)]
pub struct MutationsSection {
    pub tables: Vec<MutationMetrics>,
}

impl Default for MutationsSection {
    fn default() -> (r: Self)
        ensures
            r.tables@.len() == 0,
    {
        MutationsSection { tables: Vec::new() }
    }
}

/// The mutations of one table; the age of the oldest unfinished one is in
/// seconds.
#[derive(Debug, PartialEq)]
pub struct MutationMetrics {
    pub database: String,
    pub table: String,
    pub total_mutations: u64,
    pub active_mutations: u64,
    pub latest_mutation_time: Option<String>,
    pub oldest_active_mutation_age_sec: Option<u64>,
}

impl Clone for MutationMetrics {
    fn clone(&self) -> (r: Self)
        ensures
            r == *self,
    {
        MutationMetrics {
            database: self.database.clone(),
            table: self.table.clone(),
            total_mutations: self.total_mutations,
            active_mutations: self.active_mutations,
            latest_mutation_time: copy_text_option(&self.latest_mutation_time),
            oldest_active_mutation_age_sec: self.oldest_active_mutation_age_sec,
        }
    }
}

impl Default for MutationMetrics {
    fn default() -> (r: Self)
        ensures
            r.database@.len() == 0,
            r.table@.len() == 0,
            r.total_mutations == 0,
            r.active_mutations == 0,
            r.latest_mutation_time is None,
            r.oldest_active_mutation_age_sec is None,
    {
        MutationMetrics {
            database: String::new(),
            table: String::new(),
            total_mutations: 0,
            active_mutations: 0,
            latest_mutation_time: None,
            oldest_active_mutation_age_sec: None,
        }
    }
}

/// Disk metrics, one record per disk.
#[derive(Debug, Clone, PartialEq)]
pub struct DiskSection {
    pub disks: Vec<DiskMetrics>,
}

impl Default for DiskSection {
    fn default() -> (r: Self)
        ensures
            r.disks@.len() == 0,
    {
        DiskSection { disks: Vec::new() }
    }
}

/// Capacity of one disk: sizes in bytes, the free share in percent.
#[derive(Debug, PartialEq)]
pub struct DiskMetrics {
    pub disk_name: String,
    pub path: String,
    pub total_space: u64,
    pub free_space: u64,
    pub free_percent: Decimal,
}

impl Clone for DiskMetrics {
    fn clone(&self) -> (r: Self)
        ensures
            r == *self,
    {
        DiskMetrics {
            disk_name: self.disk_name.clone(),
            path: self.path.clone(),
            total_space: self.total_space,
            free_space: self.free_space,
            free_percent: self.free_percent,
        }
    }
}

impl Default for DiskMetrics {
    fn default() -> (r: Self)
        ensures
            r.disk_name@.len() == 0,
            r.path@.len() == 0,
            r.total_space == 0,
            r.free_space == 0,
            r.free_percent.hundredths == 0,
    {
        DiskMetrics {
            disk_name: String::new(),
            path: String::new(),
            total_space: 0,
            free_space: 0,
            free_percent: Decimal { hundredths: 0 },
        }
    }
}

/// Query-log metrics, one record per query fingerprint.
#[derive(Debug, Clone, PartialEq)]
pub struct QueryLogSection {
    pub queries: Vec<QueryMetrics>,
}

impl Default for QueryLogSection {
    fn default() -> (r: Self)
        ensures
            r.queries@.len() == 0,
    {
        QueryLogSection { queries: Vec::new() }
    }
}

/// The executions of one normalised query: the average duration is in
/// milliseconds, the read amplification is rows read per row returned.
#[derive(Debug, PartialEq)]
pub struct QueryMetrics {
    pub query_fingerprint: String,
    pub execution_count: u64,
    pub avg_duration_ms: Decimal,
    pub total_read_rows: u64,
    pub total_read_bytes: u64,
    pub total_result_rows: u64,
    pub read_amplification: Decimal,
    pub avg_memory_bytes: u64,
    pub sample_query: Option<String>,
}

impl Clone for QueryMetrics {
    fn clone(&self) -> (r: Self)
        ensures
            r == *self,
    {
        QueryMetrics {
            query_fingerprint: self.query_fingerprint.clone(),
            execution_count: self.execution_count,
            avg_duration_ms: self.avg_duration_ms,
            total_read_rows: self.total_read_rows,
            total_read_bytes: self.total_read_bytes,
            total_result_rows: self.total_result_rows,
            read_amplification: self.read_amplification,
            avg_memory_bytes: self.avg_memory_bytes,
            sample_query: copy_text_option(&self.sample_query),
        }
    }
}

impl Default for QueryMetrics {
    fn default() -> (r: Self)
        ensures
            r.query_fingerprint@.len() == 0,
            r.execution_count == 0,
            r.avg_duration_ms.hundredths == 0,
            r.total_read_rows == 0,
            r.total_read_bytes == 0,
            r.total_result_rows == 0,
            r.read_amplification.hundredths == 0,
            r.avg_memory_bytes == 0,
            r.sample_query is None,
    {
        QueryMetrics {
            query_fingerprint: String::new(),
            execution_count: 0,
            avg_duration_ms: Decimal { hundredths: 0 },
            total_read_rows: 0,
            total_read_bytes: 0,
            total_result_rows: 0,
            read_amplification: Decimal { hundredths: 0 },
            avg_memory_bytes: 0,
            sample_query: None,
        }
    }
}

/// The graph of tables and materialized views of one database.
#[derive(Debug, Clone, PartialEq)]
pub struct MvDagSection {
    pub nodes: Vec<MvDagNode>,
    pub edges: Vec<MvDagEdge>,
    pub max_depth: usize,
    pub total_tables: usize,
    pub total_mvs: usize,
}

/// The model of an [`MvDagSection`].
pub struct MvDagSectionView {
    pub nodes: Seq<MvDagNodeView>,
    pub edges: Seq<MvDagEdgeView>,
    pub max_depth: nat,
    pub total_tables: nat,
    pub total_mvs: nat,
}

impl View for MvDagSection {
    type V = MvDagSectionView;

    open spec fn view(&self) -> MvDagSectionView {
        MvDagSectionView {
            nodes: self.nodes@.map_values(|n: MvDagNode| n@),
            edges: self.edges@.map_values(|e: MvDagEdge| e@),
            max_depth: self.max_depth as nat,
            total_tables: self.total_tables as nat,
            total_mvs: self.total_mvs as nat,
        }
    }
}

impl Default for MvDagSection {
    fn default() -> (r: Self)
        ensures
            r.nodes@.len() == 0,
            r.edges@.len() == 0,
            r.max_depth == 0,
            r.total_tables == 0,
            r.total_mvs == 0,
    {
        MvDagSection {
            nodes: Vec::new(),
            edges: Vec::new(),
            max_depth: 0,
            total_tables: 0,
            total_mvs: 0,
        }
    }
}

/// One table or materialized view of the graph.
#[derive(Debug, Clone, PartialEq)]
pub struct MvDagNode {
    pub name: String,
    pub database: String,
    pub table_type: TableType,
    pub engine: String,
    pub depth: usize,
}

/// The model of an [`MvDagNode`].
pub struct MvDagNodeView {
    pub name: Seq<char>,
    pub database: Seq<char>,
    pub table_type: TableType,
    pub engine: Seq<char>,
    pub depth: nat,
}

impl View for MvDagNode {
    type V = MvDagNodeView;

    open spec fn view(&self) -> MvDagNodeView {
        MvDagNodeView {
            name: self.name@,
            database: self.database@,
            table_type: self.table_type,
            engine: self.engine@,
            depth: self.depth as nat,
        }
    }
}

/// Whether a node is an ordinary table or a materialized view.
#[derive(Debug, Clone, Copy, PartialEq, Eq, Structural)]
pub enum TableType {
    Table,
    MaterializedView,
}

/// A dependency: `to` reads from `from`; both are `database.name` keys.
#[derive(Debug, Clone, PartialEq)]
pub struct MvDagEdge {
    pub from: String,
    pub to: String,
}

/// The model of an [`MvDagEdge`].
pub struct MvDagEdgeView {
    pub from: Seq<char>,
    pub to: Seq<char>,
}

impl View for MvDagEdge {
    type V = MvDagEdgeView;

    open spec fn view(&self) -> MvDagEdgeView {
        MvDagEdgeView { from: self.from@, to: self.to@ }
    }
}

/// An observation that a rule made.
#[derive(Debug, Clone, PartialEq)]
pub struct Finding {
    pub id: String,
    pub rule_id: String,
    pub severity: Severity,
    pub target: String,
    pub message: String,
    pub evidence_refs: Vec<String>,
    pub confidence: Decimal,
}

/// The model of a [`Finding`].
pub struct FindingView {
    pub id: Seq<char>,
    pub rule_id: Seq<char>,
    pub severity: Severity,
    pub target: Seq<char>,
    pub message: Seq<char>,
    pub evidence_refs: Seq<Seq<char>>,
    pub confidence: Decimal,
}

impl View for Finding {
    type V = FindingView;

    open spec fn view(&self) -> FindingView {
        FindingView {
            id: self.id@,
            rule_id: self.rule_id@,
            severity: self.severity,
            target: self.target@,
            message: self.message@,
            evidence_refs: texts_of(self.evidence_refs@),
            confidence: self.confidence,
        }
    }
}

/// How grave a finding is.
#[derive(Debug, Clone, Copy, PartialEq, Eq, Structural)]
pub enum Severity {
    Warning,
    Critical,
}

/// A finding is a warning or critical; there is no third severity.
pub proof fn severity_is_warning_or_critical(finding: Finding)
    ensures
        finding.severity == Severity::Warning || finding.severity == Severity::Critical,
{
}

/// A remedy proposed for one finding.
#[derive(Debug, Clone, PartialEq)]
pub struct Action {
    pub id: String,
    pub finding_ref: String,
    pub action_type: ActionType,
    pub priority: Priority,
    pub description: String,
    pub sql: Option<String>,
}

/// The model of an [`Action`].
pub struct ActionView {
    pub id: Seq<char>,
    pub finding_ref: Seq<char>,
    pub action_type: ActionType,
    pub priority: Priority,
    pub description: Seq<char>,
    pub sql: Option<Seq<char>>,
}

impl View for Action {
    type V = ActionView;

    open spec fn view(&self) -> ActionView {
        ActionView {
            id: self.id@,
            finding_ref: self.finding_ref@,
            action_type: self.action_type,
            priority: self.priority,
            description: self.description@,
            sql: text_of_option(self.sql),
        }
    }
}

/// Whether an action is advice or a statement to run.
#[derive(Debug, Clone, Copy, PartialEq, Eq, Structural)]
pub enum ActionType {
    Recommendation,
    DdlProposal,
}

/// How urgent an action is.
#[derive(Debug, Clone, Copy, PartialEq, Eq, Structural)]
pub enum Priority {
    High,
    Medium,
    Low,
}

/// The record of one source query: where it read, what it asked, and when.
#[derive(Debug, PartialEq)]
pub struct Evidence {
    pub id: String,
    pub source: String,
    pub sql: String,
    pub collected_at: String,
}

/// The model of an [`Evidence`].
pub struct EvidenceView {
    pub id: Seq<char>,
    pub source: Seq<char>,
    pub sql: Seq<char>,
    pub collected_at: Seq<char>,
}

impl View for Evidence {
    type V = EvidenceView;

    open spec fn view(&self) -> EvidenceView {
        EvidenceView {
            id: self.id@,
            source: self.source@,
            sql: self.sql@,
            collected_at: self.collected_at@,
        }
    }
}

impl Clone for Evidence {
    fn clone(&self) -> (r: Self)
        ensures
            r == *self,
    {
        Evidence {
            id: self.id.clone(),
            source: self.source.clone(),
            sql: self.sql.clone(),
            collected_at: self.collected_at.clone(),
        }
    }
}

} // verus!
