use pipeaudit::output::{format_summary, render_summary, truncate};
use pipeaudit::report::{
    Action, ActionType, Decimal, Finding, MvDagSection, Priority, Report, ReportStatus, Severity,
    Targets,
};

fn test_report() -> Report {
    Report::new(Targets {
        endpoint: "http://localhost:8123".to_string(),
        database: "testdb".to_string(),
        tables: vec!["events".to_string()],
    })
}

#[test]
fn test_format_summary_healthy() {
    let report = test_report();
    let output = format_summary(&report);

    assert!(output.contains("Healthy"));
    assert!(output.contains("Findings: 0"));
}

#[test]
fn test_format_summary_with_findings() {
    let mut report = test_report();
    report.findings.push(Finding {
        id: "f-1".to_string(),
        rule_id: "parts_explosion".to_string(),
        severity: Severity::Warning,
        target: "testdb.events".to_string(),
        message: "Too many parts".to_string(),
        evidence_refs: vec![],
        confidence: Decimal::from_hundredths(100),
    });
    report.summary.findings_count = 1;
    report.summary.warning_count = 1;
    report.summary.status = ReportStatus::Warning;

    let output = format_summary(&report);

    assert!(output.contains("Warning"));
    assert!(output.contains("parts_explosion"));
}

#[test]
fn test_truncate() {
    assert_eq!(truncate("short", 10), "short");
    assert_eq!(truncate("this is a long string", 10), "this is...");
}

#[test]
fn truncate_counts_characters() {
    assert_eq!(truncate("exactly ten", 11), "exactly ten");
    assert_eq!(truncate("abcd", 3), "...");
    assert_eq!(truncate("abc", 3), "abc");
    assert_eq!(truncate("", 3), "");
    assert_eq!(truncate("äöüäöüäöü", 5), "äö...");
}

fn finding(rule_id: &str, severity: Severity, target: &str, message: &str) -> Finding {
    Finding {
        id: "f".to_string(),
        rule_id: rule_id.to_string(),
        severity,
        target: target.to_string(),
        message: message.to_string(),
        evidence_refs: vec![],
        confidence: Decimal::from_hundredths(100),
    }
}

#[test]
fn format_summary_is_exact() {
    let mut report = test_report();
    assert_eq!(format_summary(&report), "Status: Healthy\nFindings: 0\n");
    report.findings.push(finding("parts_explosion", Severity::Critical, "db.t", "Too many parts"));
    report.findings.push(finding("disk_headroom", Severity::Warning, "default", "Disk is full"));
    report.summary.findings_count = 2;
    report.summary.critical_count = 1;
    report.summary.warning_count = 1;
    report.summary.status = ReportStatus::Critical;
    assert_eq!(
        format_summary(&report),
        "Status: Critical\nFindings: 2\n[Critical] parts_explosion: Too many parts\n[Warning] disk_headroom: Disk is full\n"
    );
}

#[test]
fn render_summary_of_a_healthy_report() {
    let mut report = test_report();
    report.targets.tables = vec!["events".to_string(), "users".to_string()];
    report.generated_at = "2024-01-15T10:30:00Z".to_string();
    let expected = "\n\
╭───────────────────────────────────────────────────────────────╮\n\
│                  PipeAudit Report Summary                     │\n\
╰───────────────────────────────────────────────────────────────╯\n\
\n\
Target: http://localhost:8123 / testdb\n\
Tables: events, users\n\
Generated: 2024-01-15T10:30:00Z\n\
\n\
Status: ✅ HEALTHY\n\
\n\
Full report written to: /tmp/report.json\n\
\n";
    assert_eq!(render_summary(&report, "/tmp/report.json"), expected);
}

#[test]
fn render_summary_with_findings_actions_and_graph() {
    let mut report = test_report();
    report.generated_at = "2024-01-15T10:30:00Z".to_string();
    report.findings.push(finding("parts_explosion", Severity::Critical, "db.t", "Too many parts"));
    report.findings.push(finding("disk_headroom", Severity::Warning, "default", "Disk is full"));
    report.summary.findings_count = 2;
    report.summary.critical_count = 1;
    report.summary.warning_count = 1;
    report.summary.status = ReportStatus::Critical;
    report.actions.push(Action {
        id: "a-1".to_string(),
        finding_ref: "f".to_string(),
        action_type: ActionType::Recommendation,
        priority: Priority::High,
        description: "Run OPTIMIZE TABLE".to_string(),
        sql: Some("OPTIMIZE TABLE a_database_with_a_long_name.a_table_with_a_long_name FINAL".to_string()),
    });
    report.actions.push(Action {
        id: "a-2".to_string(),
        finding_ref: "f".to_string(),
        action_type: ActionType::DdlProposal,
        priority: Priority::Low,
        description: "Expand storage".to_string(),
        sql: None,
    });
    report.actions.push(Action {
        id: "a-3".to_string(),
        finding_ref: "f".to_string(),
        action_type: ActionType::Recommendation,
        priority: Priority::Medium,
        description: "Look".to_string(),
        sql: Some("SELECT 1".to_string()),
    });
    report.sections.mv_dag = Some(MvDagSection {
        nodes: vec![],
        edges: vec![],
        max_depth: 2,
        total_tables: 1,
        total_mvs: 12,
    });
    let expected = "\n\
╭───────────────────────────────────────────────────────────────╮\n\
│                  PipeAudit Report Summary                     │\n\
╰───────────────────────────────────────────────────────────────╯\n\
\n\
Target: http://localhost:8123 / testdb\n\
Tables: events\n\
Generated: 2024-01-15T10:30:00Z\n\
\n\
Status: 🚨 CRITICAL\n\
\n\
Findings (2 total, 1 critical, 1 warning):\n  \
🚨 [parts_explosion] db.t: Too many parts\n  \
⚠️  [disk_headroom] default: Disk is full\n\
\n\
Recommended Actions:\n  \
1. [High] Run OPTIMIZE TABLE\n     \
SQL: OPTIMIZE TABLE a_database_with_a_long_name.a_table_with_a...\n  \
2. [Low] Expand storage\n  \
3. [Medium] Look\n     \
SQL: SELECT 1\n\
\n\
MV DAG: 1 tables, 12 materialized views, max depth 2\n\
\n\
Full report written to: report.json\n\
\n";
    assert_eq!(render_summary(&report, "report.json"), expected);
}

#[test]
fn render_summary_of_a_warning() {
    let mut report = test_report();
    report.summary.status = ReportStatus::Warning;
    let text = render_summary(&report, "r.json");
    assert!(text.contains("Status: ⚠️  WARNING\n"));
    assert!(!text.contains("Findings ("));
    assert!(!text.contains("Recommended Actions:"));
    assert!(!text.contains("MV DAG:"));
}
