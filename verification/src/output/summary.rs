//! The summary of a report as text.

use crate::report::types::{
    Action, Finding, MvDagSection, Priority, Report, ReportStatus, Severity,
};
use crate::text::{
    comma_list, comma_list_text, decimal_string, decimal_text, texts_of, truncate, truncated_text,
};
use vstd::prelude::*;
use vstd::string::StringExecFns;

verus! {

/// The longest statement, in characters, that an action line shows.
pub const SQL_LIMIT: usize = 60;

/// The end of a line.
pub const LINE_END: &'static str = "\n";

/// A piece of a line of the brief summary.
pub const BRIEF_STATUS: &'static str = "Status: ";

/// A piece of a line of the brief summary.
pub const BRIEF_FINDINGS: &'static str = "Findings: ";

/// A piece of a line of the brief summary.
pub const BRIEF_OPEN: &'static str = "[";

/// A piece of a line of the brief summary.
pub const BRIEF_CLOSE: &'static str = "] ";

/// A piece of a line of the brief summary.
pub const BRIEF_COLON: &'static str = ": ";

/// The frame and title that a rendered summary begins with.
pub const BANNER: &'static str = "
╭───────────────────────────────────────────────────────────────╮
│                  PipeAudit Report Summary                     │
╰───────────────────────────────────────────────────────────────╯

";

/// A piece of the rendered summary.
pub const TARGET_LABEL: &'static str = "Target: ";

/// A piece of the rendered summary.
pub const TARGET_SEPARATOR: &'static str = " / ";

/// A piece of the rendered summary.
pub const TABLES_LABEL: &'static str = "\nTables: ";

/// A piece of the rendered summary.
pub const GENERATED_LABEL: &'static str = "\nGenerated: ";

/// A piece of the rendered summary.
pub const STATUS_LABEL: &'static str = "\n\nStatus: ";

/// What stands between the glyph and the name of the status.
pub const BLANK: &'static str = " ";

/// A piece of the rendered summary.
pub const FINDINGS_LABEL: &'static str = "Findings (";

/// A piece of the rendered summary.
pub const FINDINGS_TOTAL: &'static str = " total, ";

/// A piece of the rendered summary.
pub const FINDINGS_CRITICAL: &'static str = " critical, ";

/// A piece of the rendered summary.
pub const FINDINGS_WARNING: &'static str = " warning):\n";

/// What a line on a finding or an action begins with.
pub const INDENT: &'static str = "  ";

/// A piece of the rendered summary.
pub const FINDING_OPEN: &'static str = " [";

/// A piece of the rendered summary.
pub const ACTIONS_LABEL: &'static str = "Recommended Actions:\n";

/// A piece of the rendered summary.
pub const ACTION_NUMBER_END: &'static str = ". [";

/// A piece of the rendered summary.
pub const SQL_LABEL: &'static str = "     SQL: ";

/// A piece of the rendered summary.
pub const DAG_LABEL: &'static str = "MV DAG: ";

/// A piece of the rendered summary.
pub const DAG_TABLES: &'static str = " tables, ";

/// A piece of the rendered summary.
pub const DAG_VIEWS: &'static str = " materialized views, max depth ";

/// A piece of the rendered summary.
pub const WRITTEN_LABEL: &'static str = "Full report written to: ";

/// The name of a status.
pub open spec fn status_name(status: ReportStatus) -> Seq<char> {
    match status {
        ReportStatus::Healthy => "Healthy"@,
        ReportStatus::Warning => "Warning"@,
        ReportStatus::Critical => "Critical"@,
    }
}

/// The name of a status in capitals.
pub open spec fn status_headline(status: ReportStatus) -> Seq<char> {
    match status {
        ReportStatus::Healthy => "HEALTHY"@,
        ReportStatus::Warning => "WARNING"@,
        ReportStatus::Critical => "CRITICAL"@,
    }
}

/// The glyph of a status.
pub open spec fn status_glyph(status: ReportStatus) -> Seq<char> {
    match status {
        ReportStatus::Healthy => "✅"@,
        ReportStatus::Warning => "⚠️ "@,
        ReportStatus::Critical => "🚨"@,
    }
}

/// The name of a severity.
pub open spec fn severity_name(severity: Severity) -> Seq<char> {
    match severity {
        Severity::Warning => "Warning"@,
        Severity::Critical => "Critical"@,
    }
}

/// The glyph of a severity.
pub open spec fn severity_glyph(severity: Severity) -> Seq<char> {
    match severity {
        Severity::Warning => "⚠️ "@,
        Severity::Critical => "🚨"@,
    }
}

/// The name of a priority.
pub open spec fn priority_name(priority: Priority) -> Seq<char> {
    match priority {
        Priority::High => "High"@,
        Priority::Medium => "Medium"@,
        Priority::Low => "Low"@,
    }
}

fn status_name_of(status: ReportStatus) -> (r: &'static str)
    ensures
        r@ == status_name(status),
{
    match status {
        ReportStatus::Healthy => "Healthy",
        ReportStatus::Warning => "Warning",
        ReportStatus::Critical => "Critical",
    }
}

fn status_headline_of(status: ReportStatus) -> (r: &'static str)
    ensures
        r@ == status_headline(status),
{
    match status {
        ReportStatus::Healthy => "HEALTHY",
        ReportStatus::Warning => "WARNING",
        ReportStatus::Critical => "CRITICAL",
    }
}

fn status_glyph_of(status: ReportStatus) -> (r: &'static str)
    ensures
        r@ == status_glyph(status),
{
    match status {
        ReportStatus::Healthy => "✅",
        ReportStatus::Warning => "⚠️ ",
        ReportStatus::Critical => "🚨",
    }
}

fn severity_name_of(severity: Severity) -> (r: &'static str)
    ensures
        r@ == severity_name(severity),
{
    match severity {
        Severity::Warning => "Warning",
        Severity::Critical => "Critical",
    }
}

fn severity_glyph_of(severity: Severity) -> (r: &'static str)
    ensures
        r@ == severity_glyph(severity),
{
    match severity {
        Severity::Warning => "⚠️ ",
        Severity::Critical => "🚨",
    }
}

fn priority_name_of(priority: Priority) -> (r: &'static str)
    ensures
        r@ == priority_name(priority),
{
    match priority {
        Priority::High => "High",
        Priority::Medium => "Medium",
        Priority::Low => "Low",
    }
}

/// The line of a finding in the brief summary: severity, rule and message.
pub open spec fn brief_line(finding: Finding) -> Seq<char> {
    BRIEF_OPEN@ + severity_name(finding.severity) + BRIEF_CLOSE@ + finding.rule_id@ + BRIEF_COLON@
        + finding.message@ + LINE_END@
}

/// The lines of `findings` in the brief summary, in their order.
pub open spec fn brief_lines(findings: Seq<Finding>) -> Seq<char>
    decreases findings.len(),
{
    if findings.len() == 0 {
        Seq::empty()
    } else {
        brief_lines(findings.drop_last()) + brief_line(findings.last())
    }
}

/// The brief summary: the status, the number of findings that the summary
/// gives, and one line per finding.
pub open spec fn brief_text(report: Report) -> Seq<char> {
    BRIEF_STATUS@ + status_name(report.summary.status) + LINE_END@ + BRIEF_FINDINGS@
        + decimal_text(report.summary.findings_count as nat) + LINE_END@ + brief_lines(
        report.findings@,
    )
}

/// Writes the brief summary of `report`: its status, its number of findings,
/// and one line per finding with severity, rule and message.
pub fn format_summary(report: &Report) -> (r: String)
    ensures
        r@ == brief_text(*report),
{
    let mut output = String::from_str(BRIEF_STATUS);
    output.append(status_name_of(report.summary.status));
    output.append(LINE_END);
    output.append(BRIEF_FINDINGS);
    let count = decimal_string(report.summary.findings_count as u128);
    output.append(count.as_str());
    output.append(LINE_END);
    let ghost head = output@;
    let mut i: usize = 0;
    while i < report.findings.len()
        invariant
            i <= report.findings@.len(),
            output@ == head + brief_lines(report.findings@.take(i as int)),
        decreases report.findings@.len() - i,
    {
        let finding = &report.findings[i];
        let ghost before = output@;
        output.append(BRIEF_OPEN);
        output.append(severity_name_of(finding.severity));
        output.append(BRIEF_CLOSE);
        output.append(finding.rule_id.as_str());
        output.append(BRIEF_COLON);
        output.append(finding.message.as_str());
        output.append(LINE_END);
        proof {
            assert(report.findings@.take(i + 1).drop_last() =~= report.findings@.take(i as int));
            assert(output@ =~= before + brief_line(*finding));
        }
        i = i + 1;
    }
    assert(report.findings@.take(report.findings@.len() as int) =~= report.findings@);
    output
}

/// The line of a finding in the rendered summary.
pub open spec fn finding_line(finding: Finding) -> Seq<char> {
    INDENT@ + severity_glyph(finding.severity) + FINDING_OPEN@ + finding.rule_id@ + BRIEF_CLOSE@
        + finding.target@ + BRIEF_COLON@ + finding.message@ + LINE_END@
}

/// The lines of `findings` in the rendered summary, in their order.
pub open spec fn finding_lines(findings: Seq<Finding>) -> Seq<char>
    decreases findings.len(),
{
    if findings.len() == 0 {
        Seq::empty()
    } else {
        finding_lines(findings.drop_last()) + finding_line(findings.last())
    }
}

/// The lines of the action with the number `number`: priority and
/// description, and the statement, cut to [`SQL_LIMIT`] characters, where
/// the action has one.
pub open spec fn action_lines_of(action: Action, number: nat) -> Seq<char> {
    INDENT@ + decimal_text(number) + ACTION_NUMBER_END@ + priority_name(action.priority)
        + BRIEF_CLOSE@ + action.description@ + LINE_END@ + match action.sql {
        Some(sql) => SQL_LABEL@ + truncated_text(sql@, SQL_LIMIT as nat) + LINE_END@,
        None => Seq::empty(),
    }
}

/// The lines of `actions` in the rendered summary, numbered from 1.
pub open spec fn action_lines(actions: Seq<Action>) -> Seq<char>
    decreases actions.len(),
{
    if actions.len() == 0 {
        Seq::empty()
    } else {
        action_lines(actions.drop_last()) + action_lines_of(actions.last(), actions.len())
    }
}

/// The block of findings: nothing where there is no finding, else the
/// counts of the summary, one line per finding, and an empty line.
pub open spec fn findings_block(report: Report) -> Seq<char> {
    if report.findings@.len() == 0 {
        Seq::empty()
    } else {
        FINDINGS_LABEL@ + decimal_text(report.summary.findings_count as nat) + FINDINGS_TOTAL@
            + decimal_text(report.summary.critical_count as nat) + FINDINGS_CRITICAL@
            + decimal_text(report.summary.warning_count as nat) + FINDINGS_WARNING@
            + finding_lines(report.findings@) + LINE_END@
    }
}

/// The block of actions: nothing where there is no action, else a heading,
/// the numbered actions, and an empty line.
pub open spec fn actions_block(actions: Seq<Action>) -> Seq<char> {
    if actions.len() == 0 {
        Seq::empty()
    } else {
        ACTIONS_LABEL@ + action_lines(actions) + LINE_END@
    }
}

/// The block of the dependency graph: nothing where the report has none,
/// else one line with its counts and an empty line.
pub open spec fn dag_block(dag: Option<MvDagSection>) -> Seq<char> {
    match dag {
        Some(section) => DAG_LABEL@ + decimal_text(section.total_tables as nat) + DAG_TABLES@
            + decimal_text(section.total_mvs as nat) + DAG_VIEWS@ + decimal_text(
            section.max_depth as nat,
        ) + LINE_END@ + LINE_END@,
        None => Seq::empty(),
    }
}

/// The head of the rendered summary: banner, targets, generation time and
/// status.
pub open spec fn head_block(report: Report) -> Seq<char> {
    BANNER@ + TARGET_LABEL@ + report.targets.endpoint@ + TARGET_SEPARATOR@
        + report.targets.database@ + TABLES_LABEL@ + comma_list_text(
        texts_of(report.targets.tables@),
    ) + GENERATED_LABEL@ + report.generated_at@ + STATUS_LABEL@ + status_glyph(
        report.summary.status,
    ) + BLANK@ + status_headline(report.summary.status) + LINE_END@ + LINE_END@
}

/// The rendered summary: head, findings, actions, dependency graph, and the
/// path of the written report.
pub open spec fn rendered_text(report: Report, output_path: Seq<char>) -> Seq<char> {
    head_block(report) + findings_block(report) + actions_block(report.actions@) + dag_block(
        report.sections.mv_dag,
    ) + WRITTEN_LABEL@ + output_path + LINE_END@ + LINE_END@
}

fn append_findings(output: &mut String, report: &Report)
    ensures
        final(output)@ == old(output)@ + findings_block(*report),
{
    if report.findings.len() == 0 {
        return ;
    }
    output.append(FINDINGS_LABEL);
    let total = decimal_string(report.summary.findings_count as u128);
    output.append(total.as_str());
    output.append(FINDINGS_TOTAL);
    let critical = decimal_string(report.summary.critical_count as u128);
    output.append(critical.as_str());
    output.append(FINDINGS_CRITICAL);
    let warning = decimal_string(report.summary.warning_count as u128);
    output.append(warning.as_str());
    output.append(FINDINGS_WARNING);
    let ghost head = output@;
    let mut i: usize = 0;
    while i < report.findings.len()
        invariant
            i <= report.findings@.len(),
            output@ == head + finding_lines(report.findings@.take(i as int)),
        decreases report.findings@.len() - i,
    {
        let finding = &report.findings[i];
        output.append(INDENT);
        output.append(severity_glyph_of(finding.severity));
        output.append(FINDING_OPEN);
        output.append(finding.rule_id.as_str());
        output.append(BRIEF_CLOSE);
        output.append(finding.target.as_str());
        output.append(BRIEF_COLON);
        output.append(finding.message.as_str());
        output.append(LINE_END);
        proof {
            assert(report.findings@.take(i + 1).drop_last() =~= report.findings@.take(i as int));
            assert(output@ =~= head + finding_lines(report.findings@.take(i + 1)));
        }
        i = i + 1;
    }
    assert(report.findings@.take(report.findings@.len() as int) =~= report.findings@);
    output.append(LINE_END);
}

fn append_actions(output: &mut String, actions: &Vec<Action>)
    ensures
        final(output)@ == old(output)@ + actions_block(actions@),
{
    if actions.len() == 0 {
        return ;
    }
    output.append(ACTIONS_LABEL);
    let ghost head = output@;
    let mut i: usize = 0;
    while i < actions.len()
        invariant
            i <= actions@.len(),
            output@ == head + action_lines(actions@.take(i as int)),
        decreases actions@.len() - i,
    {
        let action = &actions[i];
        output.append(INDENT);
        let number = decimal_string(i as u128 + 1);
        output.append(number.as_str());
        output.append(ACTION_NUMBER_END);
        output.append(priority_name_of(action.priority));
        output.append(BRIEF_CLOSE);
        output.append(action.description.as_str());
        output.append(LINE_END);
        match &action.sql {
            Some(sql) => {
                output.append(SQL_LABEL);
                let shown = truncate(sql.as_str(), SQL_LIMIT);
                output.append(shown.as_str());
                output.append(LINE_END);
            },
            None => {},
        }
        proof {
            assert(actions@.take(i + 1).drop_last() =~= actions@.take(i as int));
            assert(output@ =~= head + action_lines(actions@.take(i + 1)));
        }
        i = i + 1;
    }
    assert(actions@.take(actions@.len() as int) =~= actions@);
    output.append(LINE_END);
}

fn append_dag(output: &mut String, dag: &Option<MvDagSection>)
    ensures
        final(output)@ == old(output)@ + dag_block(*dag),
{
    match dag {
        Some(section) => {
            output.append(DAG_LABEL);
            let tables = decimal_string(section.total_tables as u128);
            output.append(tables.as_str());
            output.append(DAG_TABLES);
            let views = decimal_string(section.total_mvs as u128);
            output.append(views.as_str());
            output.append(DAG_VIEWS);
            let depth = decimal_string(section.max_depth as u128);
            output.append(depth.as_str());
            output.append(LINE_END);
            output.append(LINE_END);
        },
        None => {
        },
    }
}

/// Writes the summary of `report` as it is shown to the operator: targets,
/// generation time, status, the findings in their order, the numbered
/// actions with their statements cut to [`SQL_LIMIT`] characters, one line
/// on the dependency graph where the report has one, and `output_path`, the
/// place of the written report.
pub fn render_summary(report: &Report, output_path: &str) -> (r: String)
    ensures
        r@ == rendered_text(*report, output_path@),
{
    let mut output = String::from_str(BANNER);
    output.append(TARGET_LABEL);
    output.append(report.targets.endpoint.as_str());
    output.append(TARGET_SEPARATOR);
    output.append(report.targets.database.as_str());
    output.append(TABLES_LABEL);
    let tables = comma_list(report.targets.tables.as_slice());
    output.append(tables.as_str());
    output.append(GENERATED_LABEL);
    output.append(report.generated_at.as_str());
    output.append(STATUS_LABEL);
    output.append(status_glyph_of(report.summary.status));
    output.append(BLANK);
    output.append(status_headline_of(report.summary.status));
    output.append(LINE_END);
    output.append(LINE_END);
    append_findings(&mut output, report);
    append_actions(&mut output, &report.actions);
    append_dag(&mut output, &report.sections.mv_dag);
    output.append(WRITTEN_LABEL);
    output.append(output_path);
    output.append(LINE_END);
    output.append(LINE_END);
    output
}

} // verus!
