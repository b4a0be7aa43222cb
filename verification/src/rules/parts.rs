//! The rule that watches the number of active parts of a table.

use crate::report::types::{PartsMetrics, Priority, Severity};
use crate::rules::context::AuditContext;
use crate::rules::engine::{
    advice, advise, all_name_own_finding, results_view, Rule, RuleResult,
    RuleResultView,
};
use crate::text::{decimal_string, decimal_text};
use vstd::prelude::*;
use vstd::string::StringExecFns;

verus! {

/// More active parts than this is a warning.
pub const PARTS_WARNING: u64 = 300;

/// More active parts than this is critical.
pub const PARTS_CRITICAL: u64 = 1000;

/// The identifier of the rule.
pub const PARTS_RULE_ID: &'static str = "parts_explosion";

/// The name of the rule.
pub const PARTS_RULE_NAME: &'static str = "Parts Explosion";

/// What stands for the rule in the identifiers of its findings.
pub const PARTS_PREFIX: &'static str = "parts";

/// A piece of the message of a finding.
pub const PARTS_MESSAGE_HEAD: &'static str = "Table has ";

/// A piece of the message of a finding.
pub const PARTS_MESSAGE_CRITICAL: &'static str = " active parts, exceeding critical threshold of ";

/// A piece of the message of a finding.
pub const PARTS_MESSAGE_WARNING: &'static str = " active parts, exceeding warning threshold of ";

/// What the rule advises for a critical finding.
pub const PARTS_ADVICE_CRITICAL: &'static str = "Run OPTIMIZE TABLE to reduce parts count";

/// What the rule advises for a warning.
pub const PARTS_ADVICE_WARNING: &'static str = "Consider running OPTIMIZE TABLE to reduce parts";

/// A piece of the statement that the action proposes.
pub const PARTS_SQL_HEAD: &'static str = "OPTIMIZE TABLE ";

/// A piece of the statement that the action proposes.
pub const PARTS_SQL_TAIL: &'static str = " FINAL";

/// Detects tables that hold too many active parts.
#[derive(Debug, Clone, Copy, PartialEq, Eq, Structural)]
pub struct PartsExplosionRule;

/// How grave the number of active parts is: critical above
/// [`PARTS_CRITICAL`], a warning above [`PARTS_WARNING`], else nothing.
pub open spec fn parts_verdict(active_parts: u64) -> Option<Severity> {
    if active_parts > PARTS_CRITICAL {
        Some(Severity::Critical)
    } else if active_parts > PARTS_WARNING {
        Some(Severity::Warning)
    } else {
        None
    }
}

/// The statement that merges the parts of the table `key`.
pub open spec fn optimize_text(key: Seq<char>) -> Seq<char> {
    PARTS_SQL_HEAD@ + key + PARTS_SQL_TAIL@
}

/// The result for the table `key` with `active_parts` active parts, judged
/// `severity`, as the `ordinal`-th finding of the rule.
pub open spec fn parts_result(
    key: Seq<char>,
    active_parts: u64,
    severity: Severity,
    ordinal: nat,
) -> RuleResultView {
    match severity {
        Severity::Critical => advice(
            PARTS_RULE_ID@,
            PARTS_PREFIX@,
            ordinal,
            Severity::Critical,
            key,
            PARTS_MESSAGE_HEAD@ + decimal_text(active_parts as nat) + PARTS_MESSAGE_CRITICAL@
                + decimal_text(PARTS_CRITICAL as nat),
            Priority::High,
            PARTS_ADVICE_CRITICAL@,
            Some(optimize_text(key)),
        ),
        Severity::Warning => advice(
            PARTS_RULE_ID@,
            PARTS_PREFIX@,
            ordinal,
            Severity::Warning,
            key,
            PARTS_MESSAGE_HEAD@ + decimal_text(active_parts as nat) + PARTS_MESSAGE_WARNING@
                + decimal_text(PARTS_WARNING as nat),
            Priority::Medium,
            PARTS_ADVICE_WARNING@,
            Some(optimize_text(key)),
        ),
    }
}

/// The results for the tables of `entries`, in their order: one for each
/// table whose verdict is a severity, numbered from 1.
pub open spec fn parts_results(entries: Seq<(Seq<char>, PartsMetrics)>) -> Seq<RuleResultView>
    decreases entries.len(),
{
    if entries.len() == 0 {
        Seq::empty()
    } else {
        let earlier = parts_results(entries.drop_last());
        let (key, metrics) = entries.last();
        match parts_verdict(metrics.active_parts) {
            Some(severity) => earlier.push(
                parts_result(key, metrics.active_parts, severity, earlier.len() + 1),
            ),
            None => earlier,
        }
    }
}

/// A table with exactly as many active parts as a threshold does not reach
/// the severity of that threshold.
pub proof fn parts_threshold_does_not_trigger(active_parts: u64)
    ensures
        active_parts == PARTS_WARNING ==> parts_verdict(active_parts) is None,
        active_parts == PARTS_CRITICAL ==> parts_verdict(active_parts) == Some(Severity::Warning),
{
}

fn parts_message(active_parts: u64, middle: &str, threshold: u64) -> (r: String)
    ensures
        r@ == PARTS_MESSAGE_HEAD@ + decimal_text(active_parts as nat) + middle@ + decimal_text(
            threshold as nat,
        ),
{
    let mut message = String::from_str(PARTS_MESSAGE_HEAD);
    let count = decimal_string(active_parts as u128);
    message.append(count.as_str());
    message.append(middle);
    let limit = decimal_string(threshold as u128);
    message.append(limit.as_str());
    message
}

fn optimize_statement(key: &str) -> (r: String)
    ensures
        r@ == optimize_text(key@),
{
    let mut sql = String::from_str(PARTS_SQL_HEAD);
    sql.append(key);
    sql.append(PARTS_SQL_TAIL);
    sql
}

/// Every action that the rule proposes names the finding it belongs to.
pub proof fn parts_results_name_own_finding(entries: Seq<(Seq<char>, PartsMetrics)>)
    ensures
        all_name_own_finding(parts_results(entries)),
    decreases entries.len(),
{
    if entries.len() > 0 {
        parts_results_name_own_finding(entries.drop_last());
    }
}

impl Rule for PartsExplosionRule {
    fn id(&self) -> (r: &'static str)
        ensures
            r@ == PARTS_RULE_ID@,
    {
        PARTS_RULE_ID
    }

    fn name(&self) -> (r: &'static str)
        ensures
            r@ == PARTS_RULE_NAME@,
    {
        PARTS_RULE_NAME
    }

    fn evaluate(&self, ctx: &AuditContext) -> (r: Vec<RuleResult>)
        ensures
            results_view(r@) == parts_results(ctx@.parts),
    {
        let mut results: Vec<RuleResult> = Vec::new();
        let mut i: usize = 0;
        while i < ctx.parts.len()
            invariant
                i <= ctx.parts@.len(),
                results_view(results@) == parts_results(ctx.parts@.take(i as int)),
            decreases ctx.parts@.len() - i,
        {
            let key = ctx.parts.key_at(i);
            let active_parts = ctx.parts.value_at(i).active_parts;
            proof {
                assert(ctx.parts@.take(i + 1).drop_last() =~= ctx.parts@.take(i as int));
            }
            if active_parts > PARTS_CRITICAL {
                let result = advise(
                    PARTS_RULE_ID,
                    PARTS_PREFIX,
                    results.len(),
                    Severity::Critical,
                    key.clone(),
                    parts_message(active_parts, PARTS_MESSAGE_CRITICAL, PARTS_CRITICAL),
                    Priority::High,
                    PARTS_ADVICE_CRITICAL,
                    Some(optimize_statement(key.as_str())),
                );
                results.push(result);
            } else if active_parts > PARTS_WARNING {
                let result = advise(
                    PARTS_RULE_ID,
                    PARTS_PREFIX,
                    results.len(),
                    Severity::Warning,
                    key.clone(),
                    parts_message(active_parts, PARTS_MESSAGE_WARNING, PARTS_WARNING),
                    Priority::Medium,
                    PARTS_ADVICE_WARNING,
                    Some(optimize_statement(key.as_str())),
                );
                results.push(result);
            }
            i = i + 1;
        }
        assert(ctx.parts@.take(ctx.parts@.len() as int) =~= ctx.parts@);
        results
    }
}

} // verus!
