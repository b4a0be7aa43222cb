use pipeaudit::report::{
    ActionType, Decimal, DiskMetrics, Finding, MergeMetrics, MutationMetrics, PartsMetrics,
    Priority, QueryMetrics, Severity,
};
use pipeaudit::rules::{
    truncate_fingerprint, AuditContext, BuiltinRule, DiskHeadroomRule, MergeBacklogRule, MetricTable,
    PartsExplosionRule, QueryAmplificationRule, Rule, RuleRegistry, RuleResult, StuckMutationRule,
};

fn dec(value: f64) -> Decimal {
    Decimal::from_hundredths((value * 100.0).round() as u64)
}

// ---- context ----

#[test]
fn test_context_new() {
    let ctx = AuditContext::new();
    assert!(ctx.parts.is_empty());
    assert!(ctx.merges.is_empty());
    assert!(ctx.disk.is_empty());
}

#[test]
fn test_context_add_parts() {
    let mut ctx = AuditContext::new();
    ctx.add_parts(PartsMetrics {
        database: "testdb".to_string(),
        table: "events".to_string(),
        active_parts: 100,
        ..Default::default()
    });

    assert!(ctx.parts.contains_key("testdb.events"));
    assert_eq!(ctx.parts.get("testdb.events").unwrap().active_parts, 100);
}

#[test]
fn test_context_add_multiple_tables() {
    let mut ctx = AuditContext::new();
    ctx.add_parts(PartsMetrics {
        database: "db".to_string(),
        table: "t1".to_string(),
        ..Default::default()
    });
    ctx.add_parts(PartsMetrics {
        database: "db".to_string(),
        table: "t2".to_string(),
        ..Default::default()
    });

    assert_eq!(ctx.parts.len(), 2);
}

#[test]
fn context_last_writer_wins() {
    let mut ctx = AuditContext::new();
    for (table, active_parts) in [("t1", 1), ("t2", 2), ("t1", 3)] {
        ctx.add_parts(PartsMetrics {
            database: "db".to_string(),
            table: table.to_string(),
            active_parts,
            ..Default::default()
        });
    }
    assert_eq!(ctx.parts.len(), 2);
    assert_eq!(ctx.parts.get("db.t1").unwrap().active_parts, 3);
    assert_eq!(ctx.parts.get("db.t2").unwrap().active_parts, 2);
    assert_eq!(ctx.parts.key_at(0), "db.t1");
    assert_eq!(ctx.parts.key_at(1), "db.t2");
    assert_eq!(ctx.parts.value_at(0).active_parts, 3);
    assert!(!ctx.parts.contains_key("db.t3"));
    assert!(ctx.parts.get("db").is_none());
}

#[test]
fn context_keeps_merges_mutations_disks_and_queries() {
    let mut ctx = AuditContext::new();
    ctx.add_merges(MergeMetrics {
        database: "db".to_string(),
        table: "t".to_string(),
        merges_in_queue: 4,
        ..Default::default()
    });
    ctx.add_mutations(MutationMetrics {
        database: "db".to_string(),
        table: "t".to_string(),
        active_mutations: 2,
        ..Default::default()
    });
    ctx.set_disk(vec![DiskMetrics::default(), DiskMetrics::default()]);
    ctx.set_queries(vec![QueryMetrics::default()]);
    assert_eq!(ctx.merges.get("db.t").unwrap().merges_in_queue, 4);
    assert_eq!(ctx.mutations.get("db.t").unwrap().active_mutations, 2);
    assert_eq!(ctx.disk.len(), 2);
    assert_eq!(ctx.queries.len(), 1);
}

// ---- disk ----

fn ctx_with_disk(free_percent: f64) -> AuditContext {
    let mut ctx = AuditContext::new();
    let total = 100_000_000_000u64;
    let free = (total as f64 * free_percent / 100.0) as u64;
    ctx.set_disk(vec![DiskMetrics {
        disk_name: "default".to_string(),
        path: "/var/lib/clickhouse".to_string(),
        total_space: total,
        free_space: free,
        free_percent: dec(free_percent),
    }]);
    ctx
}

#[test]
fn test_disk_healthy() {
    let rule = DiskHeadroomRule;
    let ctx = ctx_with_disk(50.0);
    let results = rule.evaluate(&ctx);
    assert!(results.is_empty());
}

#[test]
fn test_disk_warning() {
    let rule = DiskHeadroomRule;
    let ctx = ctx_with_disk(15.0);
    let results = rule.evaluate(&ctx);
    assert_eq!(results.len(), 1);
    assert_eq!(results[0].finding.severity, Severity::Warning);
}

#[test]
fn test_disk_critical() {
    let rule = DiskHeadroomRule;
    let ctx = ctx_with_disk(5.0);
    let results = rule.evaluate(&ctx);
    assert_eq!(results.len(), 1);
    assert_eq!(results[0].finding.severity, Severity::Critical);
}

#[test]
fn test_disk_at_warning_threshold() {
    let rule = DiskHeadroomRule;
    let ctx = ctx_with_disk(20.0);
    let results = rule.evaluate(&ctx);
    assert!(results.is_empty());
}

#[test]
fn disk_thresholds_are_strict() {
    let rule = DiskHeadroomRule;
    assert!(rule.evaluate(&ctx_with_disk(20.0)).is_empty());
    assert_eq!(
        rule.evaluate(&ctx_with_disk(19.99))[0].finding.severity,
        Severity::Warning
    );
    assert_eq!(
        rule.evaluate(&ctx_with_disk(10.0))[0].finding.severity,
        Severity::Warning
    );
    assert_eq!(
        rule.evaluate(&ctx_with_disk(9.99))[0].finding.severity,
        Severity::Critical
    );
    assert_eq!(
        rule.evaluate(&ctx_with_disk(0.0))[0].finding.severity,
        Severity::Critical
    );
}

#[test]
fn disk_result_is_exact() {
    let rule = DiskHeadroomRule;
    let results = rule.evaluate(&ctx_with_disk(15.0));
    let finding = &results[0].finding;
    assert_eq!(finding.id, "f-disk-1");
    assert_eq!(finding.rule_id, "disk_headroom");
    assert_eq!(finding.target, "default");
    // 15,000,000,000 bytes are 13.97 GB
    assert_eq!(finding.message, "Disk default has only 15.0% free (14.0GB)");
    assert!(finding.evidence_refs.is_empty());
    assert_eq!(finding.confidence, dec(1.0));
    assert_eq!(results[0].actions.len(), 1);
    let action = &results[0].actions[0];
    assert_eq!(action.id, "a-disk-1");
    assert_eq!(action.finding_ref, "f-disk-1");
    assert_eq!(action.action_type, ActionType::Recommendation);
    assert_eq!(action.priority, Priority::Medium);
    assert_eq!(action.description, "Consider expanding storage or implementing TTL");
    assert!(action.sql.is_none());

    let results = rule.evaluate(&ctx_with_disk(5.0));
    assert_eq!(results[0].finding.message, "Disk default has only 5.0% free (4.7GB)");
    assert_eq!(results[0].actions[0].priority, Priority::High);
    assert_eq!(
        results[0].actions[0].description,
        "Expand storage or implement TTL policy urgently"
    );
}

#[test]
fn disk_findings_are_numbered_in_order() {
    let mut ctx = AuditContext::new();
    let disk = |name: &str, percent: f64| DiskMetrics {
        disk_name: name.to_string(),
        path: "/".to_string(),
        total_space: 1000,
        free_space: 0,
        free_percent: dec(percent),
    };
    ctx.set_disk(vec![
        disk("a", 5.0),
        disk("b", 50.0),
        disk("c", 15.0),
        disk("d", 12.34),
    ]);
    let results = DiskHeadroomRule.evaluate(&ctx);
    assert_eq!(results.len(), 3);
    assert_eq!(results[0].finding.id, "f-disk-1");
    assert_eq!(results[0].finding.target, "a");
    assert_eq!(results[1].finding.id, "f-disk-2");
    assert_eq!(results[1].finding.target, "c");
    assert_eq!(results[2].finding.id, "f-disk-3");
    assert_eq!(results[2].actions[0].id, "a-disk-3");
    assert_eq!(results[2].finding.message, "Disk d has only 12.3% free (0.0GB)");
}

// ---- engine ----

struct MockRule {
    should_trigger: bool,
}

impl Rule for MockRule {
    fn id(&self) -> &'static str {
        "mock_rule"
    }

    fn name(&self) -> &'static str {
        "Mock Rule"
    }

    fn evaluate(&self, _ctx: &AuditContext) -> Vec<RuleResult> {
        if self.should_trigger {
            vec![RuleResult {
                finding: Finding {
                    id: "f-mock".to_string(),
                    rule_id: self.id().to_string(),
                    severity: Severity::Warning,
                    target: "test".to_string(),
                    message: "Mock finding".to_string(),
                    evidence_refs: vec![],
                    confidence: dec(1.0),
                },
                actions: vec![],
            }]
        } else {
            vec![]
        }
    }
}

#[test]
fn test_registry_empty() {
    let registry = RuleRegistry::new();
    assert!(registry.is_empty());
    assert_eq!(registry.len(), 0);
}

#[test]
fn test_registry_register() {
    let mut registry = RuleRegistry::new();
    registry.register(Box::new(MockRule { should_trigger: false }));

    assert!(!registry.is_empty());
    assert_eq!(registry.len(), 1);
}

#[test]
fn test_registry_evaluate_empty() {
    let registry = RuleRegistry::new();
    let ctx = AuditContext::new();

    let results = registry.evaluate_all(&ctx);
    assert!(results.is_empty());
}

#[test]
fn test_registry_evaluate_no_trigger() {
    let mut registry = RuleRegistry::new();
    registry.register(Box::new(MockRule { should_trigger: false }));

    let ctx = AuditContext::new();
    let results = registry.evaluate_all(&ctx);

    assert!(results.is_empty());
}

#[test]
fn test_registry_evaluate_trigger() {
    let mut registry = RuleRegistry::new();
    registry.register(Box::new(MockRule { should_trigger: true }));

    let ctx = AuditContext::new();
    let results = registry.evaluate_all(&ctx);

    assert_eq!(results.len(), 1);
    assert_eq!(results[0].finding.rule_id, "mock_rule");
}

#[test]
fn test_registry_multiple_rules() {
    let mut registry = RuleRegistry::new();
    registry.register(Box::new(MockRule { should_trigger: true }));
    registry.register(Box::new(MockRule { should_trigger: true }));

    let ctx = AuditContext::new();
    let results = registry.evaluate_all(&ctx);

    assert_eq!(results.len(), 2);
}

#[test]
fn test_registry_rule_ids() {
    let mut registry = RuleRegistry::new();
    registry.register(Box::new(MockRule { should_trigger: false }));

    let ids = registry.rule_ids();
    assert_eq!(ids, vec!["mock_rule"]);
}

#[test]
fn default_registry_holds_the_five_rules_in_order() {
    let registry = RuleRegistry::with_default_rules();
    assert_eq!(registry.len(), 5);
    assert!(!registry.is_empty());
    assert_eq!(
        registry.rule_ids(),
        vec![
            "parts_explosion",
            "merge_backlog",
            "disk_headroom",
            "query_amplification",
            "stuck_mutation"
        ]
    );
}

#[test]
fn rules_have_ids_and_names() {
    assert_eq!(PartsExplosionRule.id(), "parts_explosion");
    assert_eq!(PartsExplosionRule.name(), "Parts Explosion");
    assert_eq!(MergeBacklogRule.id(), "merge_backlog");
    assert_eq!(MergeBacklogRule.name(), "Merge Backlog");
    assert_eq!(DiskHeadroomRule.id(), "disk_headroom");
    assert_eq!(DiskHeadroomRule.name(), "Disk Headroom");
    assert_eq!(QueryAmplificationRule.id(), "query_amplification");
    assert_eq!(QueryAmplificationRule.name(), "Query Read Amplification");
    assert_eq!(StuckMutationRule.id(), "stuck_mutation");
    assert_eq!(StuckMutationRule.name(), "Stuck Mutation");
    assert_eq!(BuiltinRule::DiskHeadroom.id(), "disk_headroom");
    assert_eq!(BuiltinRule::StuckMutation.name(), "Stuck Mutation");
}

#[test]
fn registry_runs_rules_in_registration_order() {
    let mut registry = RuleRegistry::new();
    registry.register_builtin(BuiltinRule::DiskHeadroom);
    registry.register(Box::new(MockRule { should_trigger: true }));
    registry.register_builtin(BuiltinRule::PartsExplosion);
    assert_eq!(
        registry.rule_ids(),
        vec!["disk_headroom", "mock_rule", "parts_explosion"]
    );

    let mut ctx = ctx_with_disk(5.0);
    ctx.add_parts(PartsMetrics {
        database: "db".to_string(),
        table: "t".to_string(),
        active_parts: 400,
        ..Default::default()
    });
    let results = registry.evaluate_all(&ctx);
    let ids: Vec<&str> = results.iter().map(|r| r.finding.id.as_str()).collect();
    assert_eq!(ids, vec!["f-disk-1", "f-mock", "f-parts-1"]);
}

// ---- merges ----

fn ctx_with_merges(queue: u64, elapsed: f64) -> AuditContext {
    let mut ctx = AuditContext::new();
    ctx.add_merges(MergeMetrics {
        database: "testdb".to_string(),
        table: "events".to_string(),
        merges_in_queue: queue,
        max_merge_elapsed_sec: dec(elapsed),
        ..Default::default()
    });
    ctx
}

#[test]
fn test_merge_backlog_healthy() {
    let rule = MergeBacklogRule;
    let ctx = ctx_with_merges(5, 100.0);
    let results = rule.evaluate(&ctx);
    assert!(results.is_empty());
}

#[test]
fn test_merge_backlog_queue_warning() {
    let rule = MergeBacklogRule;
    let ctx = ctx_with_merges(15, 100.0);
    let results = rule.evaluate(&ctx);
    assert_eq!(results.len(), 1);
    assert!(results[0].finding.message.contains("15 items"));
}

#[test]
fn test_merge_backlog_elapsed_warning() {
    let rule = MergeBacklogRule;
    let ctx = ctx_with_merges(5, 7200.0);
    let results = rule.evaluate(&ctx);
    assert_eq!(results.len(), 1);
    assert!(results[0].finding.message.contains("7200s"));
}

#[test]
fn test_merge_backlog_both() {
    let rule = MergeBacklogRule;
    let ctx = ctx_with_merges(15, 7200.0);
    let results = rule.evaluate(&ctx);
    assert_eq!(results.len(), 1);
    assert!(results[0].finding.message.contains("15 items"));
    assert!(results[0].finding.message.contains("7200s"));
}

#[test]
fn merge_messages_are_exact() {
    let rule = MergeBacklogRule;
    let both = rule.evaluate(&ctx_with_merges(15, 7200.0));
    assert_eq!(
        both[0].finding.message,
        "Merge queue has 15 items and longest merge running for 7200s"
    );
    let queue = rule.evaluate(&ctx_with_merges(15, 100.0));
    assert_eq!(queue[0].finding.message, "Merge queue has 15 items (threshold: 10)");
    let elapsed = rule.evaluate(&ctx_with_merges(5, 7200.4));
    assert_eq!(
        elapsed[0].finding.message,
        "Longest merge running for 7200s (threshold: 3600s)"
    );
    let finding = &elapsed[0].finding;
    assert_eq!(finding.id, "f-merge-1");
    assert_eq!(finding.rule_id, "merge_backlog");
    assert_eq!(finding.severity, Severity::Warning);
    assert_eq!(finding.target, "testdb.events");
    let action = &elapsed[0].actions[0];
    assert_eq!(action.id, "a-merge-1");
    assert_eq!(action.finding_ref, "f-merge-1");
    assert_eq!(action.priority, Priority::Medium);
    assert_eq!(action.description, "Review write rate, consider throttling ingestion");
    assert!(action.sql.is_none());
}

#[test]
fn merge_thresholds_are_strict() {
    let rule = MergeBacklogRule;
    assert!(rule.evaluate(&ctx_with_merges(10, 3600.0)).is_empty());
    assert_eq!(rule.evaluate(&ctx_with_merges(11, 3600.0)).len(), 1);
    assert_eq!(rule.evaluate(&ctx_with_merges(10, 3600.01)).len(), 1);
}

#[test]
fn seconds_are_rounded_half_to_even() {
    let rule = MergeBacklogRule;
    let message = |elapsed: f64| rule.evaluate(&ctx_with_merges(0, elapsed))[0].finding.message.clone();
    assert_eq!(message(3600.5), "Longest merge running for 3600s (threshold: 3600s)");
    assert_eq!(message(3601.5), "Longest merge running for 3602s (threshold: 3600s)");
    assert_eq!(message(3601.49), "Longest merge running for 3601s (threshold: 3600s)");
    assert_eq!(message(3601.51), "Longest merge running for 3602s (threshold: 3600s)");
}

// ---- mutations ----

fn ctx_with_mutations(active: u64, age_sec: Option<u64>) -> AuditContext {
    let mut ctx = AuditContext::new();
    ctx.add_mutations(MutationMetrics {
        database: "testdb".to_string(),
        table: "events".to_string(),
        active_mutations: active,
        oldest_active_mutation_age_sec: age_sec,
        ..Default::default()
    });
    ctx
}

#[test]
fn test_mutation_none() {
    let rule = StuckMutationRule;
    let ctx = ctx_with_mutations(0, None);
    let results = rule.evaluate(&ctx);
    assert!(results.is_empty());
}

#[test]
fn test_mutation_active_recent() {
    let rule = StuckMutationRule;
    let ctx = ctx_with_mutations(1, Some(600)); // 10 minutes
    let results = rule.evaluate(&ctx);
    assert!(results.is_empty());
}

#[test]
fn test_mutation_stuck() {
    let rule = StuckMutationRule;
    let ctx = ctx_with_mutations(1, Some(7200)); // 2 hours
    let results = rule.evaluate(&ctx);
    assert_eq!(results.len(), 1);
    assert_eq!(results[0].finding.severity, Severity::Critical);
}

#[test]
fn test_mutation_at_threshold() {
    let rule = StuckMutationRule;
    let ctx = ctx_with_mutations(1, Some(3600)); // exactly 1 hour
    let results = rule.evaluate(&ctx);
    assert!(results.is_empty()); // 3600 is NOT > 3600
}

#[test]
fn test_mutation_action_has_sql() {
    let rule = StuckMutationRule;
    let ctx = ctx_with_mutations(1, Some(7200));
    let results = rule.evaluate(&ctx);
    assert!(results[0].actions[0].sql.is_some());
    assert!(results[0].actions[0]
        .sql
        .as_ref()
        .unwrap()
        .contains("system.mutations"));
}

#[test]
fn mutation_result_is_exact() {
    let results = StuckMutationRule.evaluate(&ctx_with_mutations(1, Some(7200)));
    let finding = &results[0].finding;
    assert_eq!(finding.id, "f-mutation-1");
    assert_eq!(finding.rule_id, "stuck_mutation");
    assert_eq!(finding.target, "testdb.events");
    assert_eq!(finding.message, "Mutation running for 2.0 hours (threshold: 1 hour)");
    let action = &results[0].actions[0];
    assert_eq!(action.id, "a-mutation-1");
    assert_eq!(action.finding_ref, "f-mutation-1");
    assert_eq!(action.priority, Priority::High);
    assert_eq!(
        action.description,
        "Investigate mutation, consider KILL MUTATION if stuck"
    );
    assert_eq!(
        action.sql.as_deref(),
        Some("SELECT * FROM system.mutations WHERE database = 'testdb' AND table = 'events' AND is_done = 0")
    );
}

#[test]
fn mutation_needs_an_active_mutation_and_an_age() {
    let rule = StuckMutationRule;
    assert!(rule.evaluate(&ctx_with_mutations(0, Some(7200))).is_empty());
    assert!(rule.evaluate(&ctx_with_mutations(3, None)).is_empty());
    assert_eq!(rule.evaluate(&ctx_with_mutations(1, Some(3601))).len(), 1);
}

#[test]
fn hours_are_written_with_one_decimal() {
    let message = |age: u64| {
        StuckMutationRule.evaluate(&ctx_with_mutations(1, Some(age)))[0]
            .finding
            .message
            .clone()
    };
    assert_eq!(message(3601), "Mutation running for 1.0 hours (threshold: 1 hour)");
    assert_eq!(message(5400), "Mutation running for 1.5 hours (threshold: 1 hour)");
    // 4500 s are 1.25 h: a tie, which goes to the even digit
    assert_eq!(message(4500), "Mutation running for 1.2 hours (threshold: 1 hour)");
    assert_eq!(message(6300), "Mutation running for 1.8 hours (threshold: 1 hour)");
    assert_eq!(message(35_999), "Mutation running for 10.0 hours (threshold: 1 hour)");
    assert_eq!(
        message(u64::MAX),
        "Mutation running for 5124095576030431.0 hours (threshold: 1 hour)"
    );
}

// ---- parts ----

fn ctx_with_parts(active_parts: u64) -> AuditContext {
    let mut ctx = AuditContext::new();
    ctx.add_parts(PartsMetrics {
        database: "testdb".to_string(),
        table: "events".to_string(),
        active_parts,
        ..Default::default()
    });
    ctx
}

#[test]
fn test_parts_explosion_healthy() {
    let rule = PartsExplosionRule;
    let ctx = ctx_with_parts(100); // below 300 threshold

    let results = rule.evaluate(&ctx);
    assert!(results.is_empty());
}

#[test]
fn test_parts_explosion_warning() {
    let rule = PartsExplosionRule;
    let ctx = ctx_with_parts(500); // between 300 and 1000

    let results = rule.evaluate(&ctx);
    assert_eq!(results.len(), 1);
    assert_eq!(results[0].finding.severity, Severity::Warning);
    assert_eq!(results[0].finding.rule_id, "parts_explosion");
}

#[test]
fn test_parts_explosion_critical() {
    let rule = PartsExplosionRule;
    let ctx = ctx_with_parts(1500); // above 1000

    let results = rule.evaluate(&ctx);
    assert_eq!(results.len(), 1);
    assert_eq!(results[0].finding.severity, Severity::Critical);
}

#[test]
fn test_parts_explosion_at_warning_threshold() {
    let rule = PartsExplosionRule;
    let ctx = ctx_with_parts(300); // exactly at threshold

    let results = rule.evaluate(&ctx);
    assert!(results.is_empty()); // 300 is NOT > 300
}

#[test]
fn test_parts_explosion_just_above_warning() {
    let rule = PartsExplosionRule;
    let ctx = ctx_with_parts(301);

    let results = rule.evaluate(&ctx);
    assert_eq!(results.len(), 1);
    assert_eq!(results[0].finding.severity, Severity::Warning);
}

#[test]
fn test_parts_explosion_action_has_sql() {
    let rule = PartsExplosionRule;
    let ctx = ctx_with_parts(1500);

    let results = rule.evaluate(&ctx);
    assert!(!results[0].actions.is_empty());
    assert!(results[0].actions[0].sql.as_ref().unwrap().contains("OPTIMIZE"));
}

#[test]
fn test_parts_explosion_target_is_table() {
    let rule = PartsExplosionRule;
    let ctx = ctx_with_parts(1500);

    let results = rule.evaluate(&ctx);
    assert_eq!(results[0].finding.target, "testdb.events");
}

#[test]
fn test_parts_explosion_multiple_tables() {
    let rule = PartsExplosionRule;
    let mut ctx = AuditContext::new();

    ctx.add_parts(PartsMetrics {
        database: "db".to_string(),
        table: "healthy".to_string(),
        active_parts: 50,
        ..Default::default()
    });
    ctx.add_parts(PartsMetrics {
        database: "db".to_string(),
        table: "warning".to_string(),
        active_parts: 500,
        ..Default::default()
    });
    ctx.add_parts(PartsMetrics {
        database: "db".to_string(),
        table: "critical".to_string(),
        active_parts: 1500,
        ..Default::default()
    });

    let results = rule.evaluate(&ctx);
    assert_eq!(results.len(), 2); // warning + critical, not healthy
}

#[test]
fn parts_results_are_exact() {
    let rule = PartsExplosionRule;
    let mut ctx = AuditContext::new();
    for (table, active_parts) in [("healthy", 50), ("warning", 500), ("critical", 1500)] {
        ctx.add_parts(PartsMetrics {
            database: "db".to_string(),
            table: table.to_string(),
            active_parts,
            ..Default::default()
        });
    }
    let results = rule.evaluate(&ctx);
    let warning = &results[0];
    assert_eq!(warning.finding.id, "f-parts-1");
    assert_eq!(warning.finding.rule_id, "parts_explosion");
    assert_eq!(warning.finding.severity, Severity::Warning);
    assert_eq!(warning.finding.target, "db.warning");
    assert_eq!(
        warning.finding.message,
        "Table has 500 active parts, exceeding warning threshold of 300"
    );
    assert!(warning.finding.evidence_refs.is_empty());
    assert_eq!(warning.finding.confidence, dec(1.0));
    assert_eq!(warning.actions.len(), 1);
    assert_eq!(warning.actions[0].id, "a-parts-1");
    assert_eq!(warning.actions[0].finding_ref, "f-parts-1");
    assert_eq!(warning.actions[0].action_type, ActionType::Recommendation);
    assert_eq!(warning.actions[0].priority, Priority::Medium);
    assert_eq!(
        warning.actions[0].description,
        "Consider running OPTIMIZE TABLE to reduce parts"
    );
    assert_eq!(
        warning.actions[0].sql.as_deref(),
        Some("OPTIMIZE TABLE db.warning FINAL")
    );
    let critical = &results[1];
    assert_eq!(critical.finding.id, "f-parts-2");
    assert_eq!(critical.finding.severity, Severity::Critical);
    assert_eq!(
        critical.finding.message,
        "Table has 1500 active parts, exceeding critical threshold of 1000"
    );
    assert_eq!(critical.actions[0].id, "a-parts-2");
    assert_eq!(critical.actions[0].finding_ref, "f-parts-2");
    assert_eq!(critical.actions[0].priority, Priority::High);
    assert_eq!(
        critical.actions[0].description,
        "Run OPTIMIZE TABLE to reduce parts count"
    );
    assert_eq!(
        critical.actions[0].sql.as_deref(),
        Some("OPTIMIZE TABLE db.critical FINAL")
    );
}

#[test]
fn parts_thresholds_are_strict() {
    let rule = PartsExplosionRule;
    assert!(rule.evaluate(&ctx_with_parts(300)).is_empty());
    assert_eq!(
        rule.evaluate(&ctx_with_parts(301))[0].finding.severity,
        Severity::Warning
    );
    assert_eq!(
        rule.evaluate(&ctx_with_parts(1000))[0].finding.severity,
        Severity::Warning
    );
    assert_eq!(
        rule.evaluate(&ctx_with_parts(1001))[0].finding.severity,
        Severity::Critical
    );
    assert_eq!(
        rule.evaluate(&ctx_with_parts(u64::MAX))[0].finding.message,
        "Table has 18446744073709551615 active parts, exceeding critical threshold of 1000"
    );
}

#[test]
fn every_action_names_its_finding() {
    let mut ctx = ctx_with_parts(1500);
    ctx.add_merges(MergeMetrics {
        database: "testdb".to_string(),
        table: "events".to_string(),
        merges_in_queue: 50,
        ..Default::default()
    });
    ctx.add_mutations(MutationMetrics {
        database: "testdb".to_string(),
        table: "events".to_string(),
        active_mutations: 1,
        oldest_active_mutation_age_sec: Some(9000),
        ..Default::default()
    });
    ctx.set_disk(vec![DiskMetrics {
        disk_name: "default".to_string(),
        free_percent: dec(1.0),
        ..Default::default()
    }]);
    ctx.set_queries(vec![QueryMetrics {
        query_fingerprint: "q".to_string(),
        read_amplification: dec(5000.0),
        ..Default::default()
    }]);
    let results = RuleRegistry::with_default_rules().evaluate_all(&ctx);
    assert_eq!(results.len(), 5);
    for result in &results {
        assert_eq!(result.actions.len(), 1);
        for action in &result.actions {
            assert_eq!(action.finding_ref, result.finding.id);
        }
    }
    let rules: Vec<&str> = results.iter().map(|r| r.finding.rule_id.as_str()).collect();
    assert_eq!(
        rules,
        vec![
            "parts_explosion",
            "merge_backlog",
            "disk_headroom",
            "query_amplification",
            "stuck_mutation"
        ]
    );
}

// ---- queries ----

fn ctx_with_query_amp(amp: f64) -> AuditContext {
    let mut ctx = AuditContext::new();
    ctx.set_queries(vec![QueryMetrics {
        query_fingerprint: "SELECT * FROM events WHERE user_id = ?".to_string(),
        read_amplification: dec(amp),
        ..Default::default()
    }]);
    ctx
}

#[test]
fn test_query_amp_healthy() {
    let rule = QueryAmplificationRule;
    let ctx = ctx_with_query_amp(50.0);
    let results = rule.evaluate(&ctx);
    assert!(results.is_empty());
}

#[test]
fn test_query_amp_warning() {
    let rule = QueryAmplificationRule;
    let ctx = ctx_with_query_amp(500.0);
    let results = rule.evaluate(&ctx);
    assert_eq!(results.len(), 1);
    assert_eq!(results[0].finding.severity, Severity::Warning);
}

#[test]
fn test_query_amp_critical() {
    let rule = QueryAmplificationRule;
    let ctx = ctx_with_query_amp(2000.0);
    let results = rule.evaluate(&ctx);
    assert_eq!(results.len(), 1);
    assert_eq!(results[0].finding.severity, Severity::Critical);
}

#[test]
fn test_query_amp_multiple() {
    let rule = QueryAmplificationRule;
    let mut ctx = AuditContext::new();
    ctx.set_queries(vec![
        QueryMetrics {
            query_fingerprint: "q1".to_string(),
            read_amplification: dec(50.0),
            ..Default::default()
        },
        QueryMetrics {
            query_fingerprint: "q2".to_string(),
            read_amplification: dec(500.0),
            ..Default::default()
        },
        QueryMetrics {
            query_fingerprint: "q3".to_string(),
            read_amplification: dec(2000.0),
            ..Default::default()
        },
    ]);
    let results = rule.evaluate(&ctx);
    assert_eq!(results.len(), 2); // warning + critical, not healthy
}

#[test]
fn query_results_are_exact() {
    let rule = QueryAmplificationRule;
    let warning = rule.evaluate(&ctx_with_query_amp(500.0));
    assert_eq!(warning[0].finding.id, "f-query-1");
    assert_eq!(warning[0].finding.rule_id, "query_amplification");
    assert_eq!(
        warning[0].finding.target,
        "SELECT * FROM events WHERE user_id = ?"
    );
    assert_eq!(
        warning[0].finding.message,
        "Query has 500x read amplification (warning threshold: 100x)"
    );
    assert_eq!(warning[0].actions[0].id, "a-query-1");
    assert_eq!(warning[0].actions[0].finding_ref, "f-query-1");
    assert_eq!(warning[0].actions[0].priority, Priority::Medium);
    assert_eq!(
        warning[0].actions[0].description,
        "Consider optimizing query pattern"
    );
    assert!(warning[0].actions[0].sql.is_none());
    let critical = rule.evaluate(&ctx_with_query_amp(2000.49));
    assert_eq!(
        critical[0].finding.message,
        "Query has 2000x read amplification (critical threshold: 1000x)"
    );
    assert_eq!(critical[0].actions[0].priority, Priority::High);
    assert_eq!(
        critical[0].actions[0].description,
        "Review query, add PREWHERE or adjust ORDER BY"
    );
}

#[test]
fn query_thresholds_are_strict() {
    let rule = QueryAmplificationRule;
    assert!(rule.evaluate(&ctx_with_query_amp(100.0)).is_empty());
    assert_eq!(
        rule.evaluate(&ctx_with_query_amp(100.01))[0].finding.severity,
        Severity::Warning
    );
    assert_eq!(
        rule.evaluate(&ctx_with_query_amp(1000.0))[0].finding.severity,
        Severity::Warning
    );
    assert_eq!(
        rule.evaluate(&ctx_with_query_amp(1000.01))[0].finding.severity,
        Severity::Critical
    );
}

#[test]
fn query_target_is_cut_to_eighty_characters() {
    let long: String = "x".repeat(81);
    let mut ctx = AuditContext::new();
    ctx.set_queries(vec![QueryMetrics {
        query_fingerprint: long.clone(),
        read_amplification: dec(500.0),
        ..Default::default()
    }]);
    let results = QueryAmplificationRule.evaluate(&ctx);
    assert_eq!(results[0].finding.target, format!("{}...", "x".repeat(77)));
    assert_eq!(results[0].finding.target.chars().count(), 80);

    assert_eq!(truncate_fingerprint(&"y".repeat(80)), "y".repeat(80));
    assert_eq!(truncate_fingerprint("short"), "short");
    assert_eq!(
        truncate_fingerprint(&"é".repeat(100)),
        format!("{}...", "é".repeat(77))
    );
}

// ---- tables of records ----

#[test]
fn metric_table_keeps_the_order_of_first_insertion() {
    let mut table: MetricTable<u64> = MetricTable::new();
    assert!(table.is_empty());
    table.insert("b".to_string(), 1);
    table.insert("a".to_string(), 2);
    table.insert("b".to_string(), 3);
    table.insert("".to_string(), 4);
    assert_eq!(table.len(), 3);
    assert_eq!(table.key_at(0), "b");
    assert_eq!(table.key_at(1), "a");
    assert_eq!(table.key_at(2), "");
    assert_eq!(table.get("b"), Some(&3));
    assert_eq!(table.get("a"), Some(&2));
    assert_eq!(table.get(""), Some(&4));
    assert_eq!(table.get("c"), None);
    assert!(table.contains_key("a"));
    assert!(!table.contains_key("A"));
    let copy = table.clone();
    assert_eq!(copy.len(), 3);
    assert_eq!(copy.key_at(0), "b");
    assert_eq!(copy.get("b"), Some(&3));
    assert_eq!(table.into_values(), vec![3, 2, 4]);
    let empty: MetricTable<u64> = MetricTable::default();
    assert_eq!(empty.len(), 0);
    assert_eq!(empty.into_values(), Vec::<u64>::new());
}

#[test]
fn defaults_are_empty() {
    let ctx = AuditContext::default();
    assert!(ctx.parts.is_empty() && ctx.merges.is_empty() && ctx.mutations.is_empty());
    assert!(ctx.disk.is_empty() && ctx.queries.is_empty());
    assert!(RuleRegistry::default().is_empty());
    assert!(RuleRegistry::default().evaluate_all(&ctx).is_empty());
    for rule in [
        BuiltinRule::PartsExplosion,
        BuiltinRule::MergeBacklog,
        BuiltinRule::DiskHeadroom,
        BuiltinRule::QueryAmplification,
        BuiltinRule::StuckMutation,
    ] {
        assert!(rule.evaluate(&ctx).is_empty());
    }
}
