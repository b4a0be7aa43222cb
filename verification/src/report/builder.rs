//! The report builder: gathers the metrics of one run with their evidence,
//! runs the rules, and assembles the report.

use crate::collectors::evidence::{evidence_id_text, numbered_in_order, EvidenceCollector};
use crate::report::types::{
    Action, ActionView, DiskMetrics, DiskSection, Evidence, Finding, FindingView, MergeMetrics,
    MergesSection, MutationMetrics, MutationsSection, MvDagSection, PartsMetrics, PartsSection,
    QueryLogSection, QueryMetrics, Report, ReportStatus, Sections, Severity, Summary, Targets,
    REPORT_VERSION,
};
use crate::rules::context::{
    distinct_keys, keys_of, put, table_key, table_key_text, values_of, AuditContext,
    AuditContextView, MetricTable,
};
use crate::rules::catalogue::outcome_names_own_finding;
use crate::rules::engine::{
    all_name_own_finding, builtin_only, may_find, outcome_of, results_view,
    RuleRegistry, RuleResult, RuleResultView,
};
use crate::text::trimmed;
use vstd::prelude::*;

verus! {

/// The source that parts metrics are read from.
pub const PARTS_SOURCE: &'static str = "system.parts";

/// The source that merge metrics are read from.
pub const MERGES_SOURCE: &'static str = "system.merges";

/// The source that mutation metrics are read from.
pub const MUTATIONS_SOURCE: &'static str = "system.mutations";

/// The source that disk metrics are read from.
pub const DISKS_SOURCE: &'static str = "system.disks";

/// The source that query metrics are read from.
pub const QUERY_LOG_SOURCE: &'static str = "system.query_log";

/// The source that the dependency graph is read from.
pub const TABLES_SOURCE: &'static str = "system.tables";

/// The models of a sequence of findings.
pub open spec fn finding_views(findings: Seq<Finding>) -> Seq<FindingView> {
    findings.map_values(|f: Finding| f@)
}

/// The models of a sequence of actions.
pub open spec fn action_views(actions: Seq<Action>) -> Seq<ActionView> {
    actions.map_values(|a: Action| a@)
}

/// The findings of a sequence of results, in their order.
pub open spec fn findings_of(results: Seq<RuleResultView>) -> Seq<FindingView> {
    results.map_values(|r: RuleResultView| r.finding)
}

/// The actions of a sequence of results: those of an earlier result before
/// those of a later one.
pub open spec fn actions_of(results: Seq<RuleResultView>) -> Seq<ActionView>
    decreases results.len(),
{
    if results.len() == 0 {
        Seq::empty()
    } else {
        actions_of(results.drop_last()) + results.last().actions
    }
}

/// The number of findings of the severity `severity`.
pub open spec fn count_of(findings: Seq<Finding>, severity: Severity) -> nat
    decreases findings.len(),
{
    if findings.len() == 0 {
        0
    } else {
        count_of(findings.drop_last(), severity) + if findings.last().severity == severity {
            1nat
        } else {
            0nat
        }
    }
}

/// The status that counts of findings give: critical where a finding is
/// critical, else a warning where one is a warning, else healthy.
pub open spec fn status_of(critical_count: nat, warning_count: nat) -> ReportStatus {
    if critical_count > 0 {
        ReportStatus::Critical
    } else if warning_count > 0 {
        ReportStatus::Warning
    } else {
        ReportStatus::Healthy
    }
}

/// Whether `summary` counts `findings` and derives its status from the
/// counts.
pub open spec fn summarizes(summary: Summary, findings: Seq<Finding>) -> bool {
    &&& summary.findings_count == findings.len()
    &&& summary.critical_count == count_of(findings, Severity::Critical)
    &&& summary.warning_count == count_of(findings, Severity::Warning)
    &&& summary.status == status_of(
        count_of(findings, Severity::Critical),
        count_of(findings, Severity::Warning),
    )
}

/// Every finding is a warning or critical, so the two counts add up to the
/// number of findings.
pub proof fn counts_add_up(findings: Seq<Finding>)
    ensures
        count_of(findings, Severity::Critical) + count_of(findings, Severity::Warning)
            == findings.len(),
    decreases findings.len(),
{
    if findings.len() > 0 {
        counts_add_up(findings.drop_last());
    }
}

/// The status of a summary follows from its counts: critical exactly where a
/// finding is critical; a warning exactly where none is critical and one is a
/// warning; healthy exactly where there is no finding.
pub proof fn status_follows_counts(summary: Summary, findings: Seq<Finding>)
    requires
        summarizes(summary, findings),
    ensures
        summary.status == ReportStatus::Critical <==> summary.critical_count > 0,
        summary.status == ReportStatus::Warning <==> summary.critical_count == 0
            && summary.warning_count > 0,
        summary.status == ReportStatus::Healthy <==> summary.findings_count == 0,
        summary.findings_count == summary.critical_count + summary.warning_count,
{
    counts_add_up(findings);
}

/// Whether every action refers to a finding that is there.
pub open spec fn actions_resolve(actions: Seq<ActionView>, findings: Seq<FindingView>) -> bool {
    forall|i: int|
        0 <= i < actions.len() ==> exists|j: int|
            0 <= j < findings.len() && (#[trigger] findings[j]).id == (#[trigger] actions[i]).finding_ref
}

/// The key under which the parts metrics of a table are kept.
pub open spec fn parts_key() -> spec_fn(PartsMetrics) -> Seq<char> {
    |m: PartsMetrics| table_key_text(m.database@, m.table@)
}

/// The key under which the merge metrics of a table are kept.
pub open spec fn merges_key() -> spec_fn(MergeMetrics) -> Seq<char> {
    |m: MergeMetrics| table_key_text(m.database@, m.table@)
}

/// The key under which the mutation metrics of a table are kept.
pub open spec fn mutations_key() -> spec_fn(MutationMetrics) -> Seq<char> {
    |m: MutationMetrics| table_key_text(m.database@, m.table@)
}

/// `entries` after every record of `items` was put under its key, in the
/// order of `items`.
pub open spec fn put_all<T>(
    entries: Seq<(Seq<char>, T)>,
    items: Seq<T>,
    key_of: spec_fn(T) -> Seq<char>,
) -> Seq<(Seq<char>, T)>
    decreases items.len(),
{
    if items.len() == 0 {
        entries
    } else {
        put(put_all(entries, items.drop_last(), key_of), key_of(items.last()), items.last())
    }
}

/// Whether `after` is `before` with one more entry at its end: the next
/// identifier, the source `source`, and the query `sql` without the white
/// space around it.
pub open spec fn recorded(
    before: Seq<Evidence>,
    after: Seq<Evidence>,
    source: Seq<char>,
    sql: Seq<char>,
) -> bool {
    &&& after.len() == before.len() + 1
    &&& after.drop_last() == before
    &&& after.last().id@ == evidence_id_text(after.len())
    &&& after.last().source@ == source
    &&& after.last().sql@ == trimmed(sql)
}

/// Whether a section is there exactly where there are records, and holds
/// them; `section` is what the section holds, if it is there.
pub open spec fn holds_records<T>(section: Option<Seq<T>>, records: Seq<T>) -> bool {
    if records.len() == 0 {
        section is None
    } else {
        section == Some(records)
    }
}

/// The records of the parts section, if it is there.
pub open spec fn parts_held(sections: Sections) -> Option<Seq<PartsMetrics>> {
    match sections.parts {
        Some(section) => Some(section.tables@),
        None => None,
    }
}

/// The records of the merges section, if it is there.
pub open spec fn merges_held(sections: Sections) -> Option<Seq<MergeMetrics>> {
    match sections.merges {
        Some(section) => Some(section.tables@),
        None => None,
    }
}

/// The records of the mutations section, if it is there.
pub open spec fn mutations_held(sections: Sections) -> Option<Seq<MutationMetrics>> {
    match sections.mutations {
        Some(section) => Some(section.tables@),
        None => None,
    }
}

/// The records of the disk section, if it is there.
pub open spec fn disks_held(sections: Sections) -> Option<Seq<DiskMetrics>> {
    match sections.disk {
        Some(section) => Some(section.disks@),
        None => None,
    }
}

/// The records of the query-log section, if it is there.
pub open spec fn queries_held(sections: Sections) -> Option<Seq<QueryMetrics>> {
    match sections.query_log {
        Some(section) => Some(section.queries@),
        None => None,
    }
}

/// What a [`ReportBuilder`] holds.
pub struct ReportBuilderView {
    pub targets: Targets,
    pub evidence: Seq<Evidence>,
    pub parts: Seq<(Seq<char>, PartsMetrics)>,
    pub merges: Seq<(Seq<char>, MergeMetrics)>,
    pub mutations: Seq<(Seq<char>, MutationMetrics)>,
    pub disk: Seq<DiskMetrics>,
    pub queries: Seq<QueryMetrics>,
    pub mv_dag: Option<MvDagSection>,
    pub findings: Seq<Finding>,
    pub actions: Seq<Action>,
}

impl ReportBuilderView {
    /// The context that rules are given.
    pub open spec fn context(self) -> AuditContextView {
        AuditContextView {
            parts: self.parts,
            merges: self.merges,
            mutations: self.mutations,
            disk: self.disk,
            queries: self.queries,
        }
    }

    /// Whether the evidence is numbered in order and no table key stands
    /// twice.
    pub open spec fn well_formed(self) -> bool {
        &&& numbered_in_order(self.evidence)
        &&& distinct_keys(keys_of(self.parts))
        &&& distinct_keys(keys_of(self.merges))
        &&& distinct_keys(keys_of(self.mutations))
    }

    /// Whether every action refers to a finding that is there.
    pub open spec fn actions_resolved(self) -> bool {
        actions_resolve(action_views(self.actions), finding_views(self.findings))
    }
}

/// Whether `after` is `before` with the findings and actions of `found`
/// appended, in the order of `found`, and nothing else changed.
pub open spec fn absorbed(
    before: ReportBuilderView,
    after: ReportBuilderView,
    found: Seq<RuleResultView>,
) -> bool {
    &&& after == (ReportBuilderView { findings: after.findings, actions: after.actions, ..before })
    &&& finding_views(after.findings) == finding_views(before.findings) + findings_of(found)
    &&& action_views(after.actions) == action_views(before.actions) + actions_of(found)
}

/// Every action of a sequence of results is an action of one of the results.
pub proof fn action_comes_from_a_result(found: Seq<RuleResultView>, i: int)
    requires
        0 <= i < actions_of(found).len(),
    ensures
        exists|k: int, m: int|
            0 <= k < found.len() && 0 <= m < found[k].actions.len() && actions_of(found)[i]
                == #[trigger] found[k].actions[m],
    decreases found.len(),
{
    let earlier = actions_of(found.drop_last());
    if i < earlier.len() {
        action_comes_from_a_result(found.drop_last(), i);
    } else {
        assert(actions_of(found)[i] == found[found.len() - 1].actions[i - earlier.len()]);
    }
}

/// Where every action refers to a finding that is there, and new results
/// whose actions name their own findings are appended, every action still
/// refers to a finding that is there.
pub proof fn absorbing_keeps_actions_resolved(
    before: ReportBuilderView,
    after: ReportBuilderView,
    found: Seq<RuleResultView>,
)
    requires
        before.actions_resolved(),
        all_name_own_finding(found),
        absorbed(before, after, found),
    ensures
        after.actions_resolved(),
{
    let actions = action_views(after.actions);
    let findings = finding_views(after.findings);
    let old_actions = action_views(before.actions);
    let old_findings = finding_views(before.findings);
    assert forall|i: int| 0 <= i < actions.len() implies exists|j: int|
        0 <= j < findings.len() && (#[trigger] findings[j]).id == (
        #[trigger] actions[i]).finding_ref by {
        if i < old_actions.len() {
            let j = choose|j: int|
                0 <= j < old_findings.len() && (#[trigger] old_findings[j]).id
                    == old_actions[i].finding_ref;
            assert(findings[j] == old_findings[j]);
        } else {
            let at = i - old_actions.len();
            action_comes_from_a_result(found, at);
            let (k, m) = choose|k: int, m: int|
                0 <= k < found.len() && 0 <= m < found[k].actions.len() && actions_of(found)[at]
                    == #[trigger] found[k].actions[m];
            assert(findings[old_findings.len() + k] == found[k].finding);
        }
    }
}

/// Gathers what one run collects and finds, and assembles the report.
pub struct ReportBuilder {
    targets: Targets,
    evidence: EvidenceCollector,
    parts: MetricTable<PartsMetrics>,
    merges: MetricTable<MergeMetrics>,
    mutations: MetricTable<MutationMetrics>,
    disk: Vec<DiskMetrics>,
    queries: Vec<QueryMetrics>,
    mv_dag: Option<MvDagSection>,
    findings: Vec<Finding>,
    actions: Vec<Action>,
}

impl View for ReportBuilder {
    type V = ReportBuilderView;

    closed spec fn view(&self) -> ReportBuilderView {
        ReportBuilderView {
            targets: self.targets,
            evidence: self.evidence@,
            parts: self.parts@,
            merges: self.merges@,
            mutations: self.mutations@,
            disk: self.disk@,
            queries: self.queries@,
            mv_dag: self.mv_dag,
            findings: self.findings@,
            actions: self.actions@,
        }
    }
}

impl ReportBuilder {
    /// Whether the builder is as its own operations leave it.
    pub open spec fn well_formed(&self) -> bool {
        self@.well_formed()
    }

    /// A builder for a report on `targets` that holds nothing yet.
    pub fn new(targets: Targets) -> (r: Self)
        ensures
            r.well_formed(),
            r@.actions_resolved(),
            r@.targets == targets,
            r@.evidence.len() == 0,
            r@.parts.len() == 0,
            r@.merges.len() == 0,
            r@.mutations.len() == 0,
            r@.disk.len() == 0,
            r@.queries.len() == 0,
            r@.mv_dag is None,
            r@.findings.len() == 0,
            r@.actions.len() == 0,
    {
        ReportBuilder {
            targets,
            evidence: EvidenceCollector::new(),
            parts: MetricTable::new(),
            merges: MetricTable::new(),
            mutations: MetricTable::new(),
            disk: Vec::new(),
            queries: Vec::new(),
            mv_dag: None,
            findings: Vec::new(),
            actions: Vec::new(),
        }
    }

    /// Records the parts query as evidence and puts each record under the key
    /// of its table; the last record of a table wins.
    pub fn with_parts(&mut self, metrics: Vec<PartsMetrics>, sql: &str) -> (r: &mut Self)
        ensures
            *final(self) == *final(r),
            old(self).well_formed() ==> r.well_formed(),
            recorded(old(self)@.evidence, r@.evidence, PARTS_SOURCE@, sql@),
            r@ == (ReportBuilderView {
                evidence: r@.evidence,
                parts: put_all(old(self)@.parts, metrics@, parts_key()),
                ..old(self)@
            }),
    {
        self.evidence.record(PARTS_SOURCE, sql);
        let ghost recorded = self@;
        for m in it: metrics
            invariant
                it.seq() == metrics@,
                old(self).well_formed() ==> self.well_formed(),
                self@ == (ReportBuilderView {
                    parts: put_all(recorded.parts, metrics@.take(it.index() as int), parts_key()),
                    ..recorded
                }),
        {
            let ghost done = metrics@.take(it.index() as int);
            let ghost next = metrics@.take(it.index() + 1);
            assert(next.drop_last() =~= done);
            let key = table_key(m.database.as_str(), m.table.as_str());
            self.parts.insert(key, m);
        }
        assert(metrics@.take(metrics@.len() as int) =~= metrics@);
        self
    }

    /// Records the merges query as evidence and puts each record under the key
    /// of its table; the last record of a table wins.
    pub fn with_merges(&mut self, metrics: Vec<MergeMetrics>, sql: &str) -> (r: &mut Self)
        ensures
            *final(self) == *final(r),
            old(self).well_formed() ==> r.well_formed(),
            recorded(old(self)@.evidence, r@.evidence, MERGES_SOURCE@, sql@),
            r@ == (ReportBuilderView {
                evidence: r@.evidence,
                merges: put_all(old(self)@.merges, metrics@, merges_key()),
                ..old(self)@
            }),
    {
        self.evidence.record(MERGES_SOURCE, sql);
        let ghost recorded = self@;
        for m in it: metrics
            invariant
                it.seq() == metrics@,
                old(self).well_formed() ==> self.well_formed(),
                self@ == (ReportBuilderView {
                    merges: put_all(recorded.merges, metrics@.take(it.index() as int), merges_key()),
                    ..recorded
                }),
        {
            let ghost done = metrics@.take(it.index() as int);
            let ghost next = metrics@.take(it.index() + 1);
            assert(next.drop_last() =~= done);
            let key = table_key(m.database.as_str(), m.table.as_str());
            self.merges.insert(key, m);
        }
        assert(metrics@.take(metrics@.len() as int) =~= metrics@);
        self
    }

    /// Records the mutations query as evidence and puts each record under the
    /// key of its table; the last record of a table wins.
    pub fn with_mutations(&mut self, metrics: Vec<MutationMetrics>, sql: &str) -> (r: &mut Self)
        ensures
            *final(self) == *final(r),
            old(self).well_formed() ==> r.well_formed(),
            recorded(old(self)@.evidence, r@.evidence, MUTATIONS_SOURCE@, sql@),
            r@ == (ReportBuilderView {
                evidence: r@.evidence,
                mutations: put_all(old(self)@.mutations, metrics@, mutations_key()),
                ..old(self)@
            }),
    {
        self.evidence.record(MUTATIONS_SOURCE, sql);
        let ghost recorded = self@;
        for m in it: metrics
            invariant
                it.seq() == metrics@,
                old(self).well_formed() ==> self.well_formed(),
                self@ == (ReportBuilderView {
                    mutations: put_all(
                        recorded.mutations,
                        metrics@.take(it.index() as int),
                        mutations_key(),
                    ),
                    ..recorded
                }),
        {
            let ghost done = metrics@.take(it.index() as int);
            let ghost next = metrics@.take(it.index() + 1);
            assert(next.drop_last() =~= done);
            let key = table_key(m.database.as_str(), m.table.as_str());
            self.mutations.insert(key, m);
        }
        assert(metrics@.take(metrics@.len() as int) =~= metrics@);
        self
    }

    /// Records the disks query as evidence and replaces the disk metrics.
    pub fn with_disk(&mut self, metrics: Vec<DiskMetrics>, sql: &str) -> (r: &mut Self)
        ensures
            *final(self) == *final(r),
            old(self).well_formed() ==> r.well_formed(),
            recorded(old(self)@.evidence, r@.evidence, DISKS_SOURCE@, sql@),
            r@ == (ReportBuilderView { evidence: r@.evidence, disk: metrics@, ..old(self)@ }),
    {
        self.evidence.record(DISKS_SOURCE, sql);
        self.disk = metrics;
        self
    }

    /// Records the query-log query as evidence and replaces the query
    /// metrics.
    pub fn with_queries(&mut self, metrics: Vec<QueryMetrics>, sql: &str) -> (r: &mut Self)
        ensures
            *final(self) == *final(r),
            old(self).well_formed() ==> r.well_formed(),
            recorded(old(self)@.evidence, r@.evidence, QUERY_LOG_SOURCE@, sql@),
            r@ == (ReportBuilderView { evidence: r@.evidence, queries: metrics@, ..old(self)@ }),
    {
        self.evidence.record(QUERY_LOG_SOURCE, sql);
        self.queries = metrics;
        self
    }

    /// Records the queries of the dependency graph as evidence and keeps the
    /// graph.
    pub fn with_mv_dag(&mut self, dag: MvDagSection, sql: &str) -> (r: &mut Self)
        ensures
            *final(self) == *final(r),
            old(self).well_formed() ==> r.well_formed(),
            recorded(old(self)@.evidence, r@.evidence, TABLES_SOURCE@, sql@),
            r@ == (ReportBuilderView { evidence: r@.evidence, mv_dag: Some(dag), ..old(self)@ }),
    {
        self.evidence.record(TABLES_SOURCE, sql);
        self.mv_dag = Some(dag);
        self
    }

    /// Runs the rules of `registry` on what was gathered and appends the
    /// finding and the actions of every result, in the order of the results.
    /// Built-in rules contribute their outcomes; where all rules are built in
    /// and every action referred to a finding before, every action does so
    /// afterwards.
    pub fn run_rules(&mut self, registry: &RuleRegistry) -> (r: &mut Self)
        ensures
            *final(self) == *final(r),
            exists|found: Seq<RuleResultView>|
                may_find(registry@, old(self)@.context(), found) && #[trigger] absorbed(
                    old(self)@,
                    r@,
                    found,
                ),
            builtin_only(registry@) ==> absorbed(
                old(self)@,
                r@,
                outcome_of(registry@, old(self)@.context()),
            ),
            builtin_only(registry@) && old(self)@.actions_resolved() ==> r@.actions_resolved(),
    {
        let ctx = self.build_context();
        let results = registry.evaluate_all(&ctx);
        let ghost start = self@;
        let ghost found = results_view(results@);
        for result in it: results
            invariant
                it.seq() == results@,
                found == results_view(results@),
                self@ == (ReportBuilderView {
                    findings: self@.findings,
                    actions: self@.actions,
                    ..start
                }),
                finding_views(self@.findings) == finding_views(start.findings) + findings_of(
                    found.take(it.index() as int),
                ),
                action_views(self@.actions) == action_views(start.actions) + actions_of(
                    found.take(it.index() as int),
                ),
        {
            let ghost done = found.take(it.index() as int);
            let ghost next = found.take(it.index() + 1);
            let ghost findings_before = self.findings@;
            let ghost actions_before = self.actions@;
            let RuleResult { finding, actions } = result;
            let mut actions = actions;
            let ghost added = actions@;
            self.findings.push(finding);
            self.actions.append(&mut actions);
            proof {
                assert(next.drop_last() =~= done);
                assert(finding_views(self.findings@) =~= finding_views(findings_before).push(
                    finding@,
                ));
                assert(action_views(self.actions@) =~= action_views(actions_before) + action_views(
                    added,
                ));
            }
        }
        proof {
            assert(found.take(found.len() as int) =~= found);
            if builtin_only(registry@) {
                outcome_names_own_finding(registry@, start.context());
                if start.actions_resolved() {
                    absorbing_keeps_actions_resolved(start, self@, found);
                }
            }
        }
        self
    }

    /// The context that rules are given: a copy of the gathered metrics.
    fn build_context(&self) -> (ctx: AuditContext)
        ensures
            ctx@ == self@.context(),
    {
        let parts = self.parts.clone();
        let merges = self.merges.clone();
        let mutations = self.mutations.clone();
        let disk = self.disk.clone();
        let queries = self.queries.clone();
        assert(parts@ =~= self.parts@);
        assert(merges@ =~= self.merges@);
        assert(mutations@ =~= self.mutations@);
        AuditContext { parts, merges, mutations, disk, queries }
    }

    /// Assembles the report: the sections that hold records, the findings and
    /// actions, the summary that counts the findings, and the evidence.
    pub fn build(self) -> (r: Report)
        ensures
            r.report_version@ == REPORT_VERSION@,
            r.report_id@.len() == 36,
            r.targets == self@.targets,
            holds_records(parts_held(r.sections), values_of(self@.parts)),
            holds_records(merges_held(r.sections), values_of(self@.merges)),
            holds_records(mutations_held(r.sections), values_of(self@.mutations)),
            holds_records(disks_held(r.sections), self@.disk),
            holds_records(queries_held(r.sections), self@.queries),
            r.sections.mv_dag == self@.mv_dag,
            r.findings@ == self@.findings,
            r.actions@ == self@.actions,
            r.evidence@ == self@.evidence,
            summarizes(r.summary, r.findings@),
            self.well_formed() ==> numbered_in_order(r.evidence@),
            self@.actions_resolved() ==> actions_resolve(
                action_views(r.actions@),
                finding_views(r.findings@),
            ),
    {
        let mut report = Report::new(self.targets);
        let evidence = self.evidence.get_all();
        let mut critical_count: usize = 0;
        let mut warning_count: usize = 0;
        let mut i: usize = 0;
        while i < self.findings.len()
            invariant
                i <= self.findings@.len(),
                critical_count == count_of(self.findings@.take(i as int), Severity::Critical),
                warning_count == count_of(self.findings@.take(i as int), Severity::Warning),
                critical_count <= i,
                warning_count <= i,
            decreases self.findings@.len() - i,
        {
            assert(self.findings@.take(i + 1).drop_last() =~= self.findings@.take(i as int));
            match self.findings[i].severity {
                Severity::Critical => {
                    critical_count = critical_count + 1;
                },
                Severity::Warning => {
                    warning_count = warning_count + 1;
                },
            }
            i = i + 1;
        }
        assert(self.findings@.take(self.findings@.len() as int) =~= self.findings@);
        report.summary =
        Summary {
            status: if critical_count > 0 {
                ReportStatus::Critical
            } else if warning_count > 0 {
                ReportStatus::Warning
            } else {
                ReportStatus::Healthy
            },
            findings_count: self.findings.len(),
            critical_count,
            warning_count,
        };
        report.sections =
        Sections {
            parts: if self.parts.is_empty() {
                None
            } else {
                Some(PartsSection { tables: self.parts.into_values() })
            },
            merges: if self.merges.is_empty() {
                None
            } else {
                Some(MergesSection { tables: self.merges.into_values() })
            },
            mutations: if self.mutations.is_empty() {
                None
            } else {
                Some(MutationsSection { tables: self.mutations.into_values() })
            },
            disk: if self.disk.len() == 0 {
                None
            } else {
                Some(DiskSection { disks: self.disk })
            },
            query_log: if self.queries.len() == 0 {
                None
            } else {
                Some(QueryLogSection { queries: self.queries })
            },
            mv_dag: self.mv_dag,
        };
        report.findings = self.findings;
        report.actions = self.actions;
        report.evidence = evidence;
        report
    }
}

} // verus!
