//! The rule that watches the merge queue of a table.

use crate::report::types::{MergeMetrics, Priority, Severity};
use crate::rules::context::AuditContext;
use crate::rules::engine::{
    advice, advise, all_name_own_finding, results_view, Rule, RuleResult,
    RuleResultView,
};
use crate::text::{decimal_string, decimal_text, rounded_text};
use vstd::prelude::*;
use vstd::string::StringExecFns;

verus! {

/// More merges in the queue than this is a warning.
pub const MERGE_QUEUE_WARNING: u64 = 10;

/// A merge that has run for more seconds than this is a warning.
pub const MERGE_ELAPSED_WARNING_SEC: u32 = 3600;

/// The identifier of the rule.
pub const MERGE_RULE_ID: &'static str = "merge_backlog";

/// The name of the rule.
pub const MERGE_RULE_NAME: &'static str = "Merge Backlog";

/// What stands for the rule in the identifiers of its findings.
pub const MERGE_PREFIX: &'static str = "merge";

/// A piece of the message of a finding.
pub const MERGE_QUEUE_HEAD: &'static str = "Merge queue has ";

/// A piece of the message of a finding.
pub const MERGE_BOTH_MIDDLE: &'static str = " items and longest merge running for ";

/// A piece of the message of a finding.
pub const MERGE_BOTH_TAIL: &'static str = "s";

/// A piece of the message of a finding.
pub const MERGE_QUEUE_MIDDLE: &'static str = " items (threshold: ";

/// A piece of the message of a finding.
pub const MERGE_QUEUE_TAIL: &'static str = ")";

/// A piece of the message of a finding.
pub const MERGE_ELAPSED_HEAD: &'static str = "Longest merge running for ";

/// A piece of the message of a finding.
pub const MERGE_ELAPSED_MIDDLE: &'static str = "s (threshold: ";

/// A piece of the message of a finding.
pub const MERGE_ELAPSED_TAIL: &'static str = "s)";

/// What the rule advises.
pub const MERGE_ADVICE: &'static str = "Review write rate, consider throttling ingestion";

/// Detects tables whose merges pile up or run long.
#[derive(Debug, Clone, Copy, PartialEq, Eq, Structural)]
pub struct MergeBacklogRule;

/// Whether the queue of the table is longer than [`MERGE_QUEUE_WARNING`].
pub open spec fn queue_is_long(metrics: MergeMetrics) -> bool {
    metrics.merges_in_queue > MERGE_QUEUE_WARNING
}

/// Whether the longest merge of the table has run for more than
/// [`MERGE_ELAPSED_WARNING_SEC`] seconds.
pub open spec fn merge_is_slow(metrics: MergeMetrics) -> bool {
    metrics.max_merge_elapsed_sec.above_units(MERGE_ELAPSED_WARNING_SEC as nat)
}

/// The message for a table: it names the queue, the longest merge, or both,
/// according to which of them passed its threshold. Seconds are rounded to
/// whole numbers.
pub open spec fn merge_message_text(metrics: MergeMetrics) -> Seq<char> {
    if queue_is_long(metrics) && merge_is_slow(metrics) {
        MERGE_QUEUE_HEAD@ + decimal_text(metrics.merges_in_queue as nat) + MERGE_BOTH_MIDDLE@
            + rounded_text(metrics.max_merge_elapsed_sec.hundredths as nat, 100) + MERGE_BOTH_TAIL@
    } else if queue_is_long(metrics) {
        MERGE_QUEUE_HEAD@ + decimal_text(metrics.merges_in_queue as nat) + MERGE_QUEUE_MIDDLE@
            + decimal_text(MERGE_QUEUE_WARNING as nat) + MERGE_QUEUE_TAIL@
    } else {
        MERGE_ELAPSED_HEAD@ + rounded_text(metrics.max_merge_elapsed_sec.hundredths as nat, 100)
            + MERGE_ELAPSED_MIDDLE@ + decimal_text(MERGE_ELAPSED_WARNING_SEC as nat)
            + MERGE_ELAPSED_TAIL@
    }
}

/// The result for the table `key`, as the `ordinal`-th finding of the rule.
pub open spec fn merge_result(key: Seq<char>, metrics: MergeMetrics, ordinal: nat) -> RuleResultView {
    advice(
        MERGE_RULE_ID@,
        MERGE_PREFIX@,
        ordinal,
        Severity::Warning,
        key,
        merge_message_text(metrics),
        Priority::Medium,
        MERGE_ADVICE@,
        None,
    )
}

/// The results for the tables of `entries`, in their order: one for each
/// table whose queue is long or whose longest merge is slow, numbered from 1.
pub open spec fn merge_results(entries: Seq<(Seq<char>, MergeMetrics)>) -> Seq<RuleResultView>
    decreases entries.len(),
{
    if entries.len() == 0 {
        Seq::empty()
    } else {
        let earlier = merge_results(entries.drop_last());
        let (key, metrics) = entries.last();
        if queue_is_long(metrics) || merge_is_slow(metrics) {
            earlier.push(merge_result(key, metrics, earlier.len() + 1))
        } else {
            earlier
        }
    }
}

/// A table whose queue and longest merge are exactly at their thresholds, or
/// below, gives no finding.
pub proof fn merge_threshold_does_not_trigger(metrics: MergeMetrics)
    ensures
        metrics.merges_in_queue == MERGE_QUEUE_WARNING ==> !queue_is_long(metrics),
        metrics.max_merge_elapsed_sec.hundredths == 100 * MERGE_ELAPSED_WARNING_SEC
            ==> !merge_is_slow(metrics),
{
}

fn merge_message(metrics: &MergeMetrics, queue_high: bool, elapsed_high: bool) -> (r: String)
    requires
        queue_high == queue_is_long(*metrics),
        elapsed_high == merge_is_slow(*metrics),
    ensures
        r@ == merge_message_text(*metrics),
{
    if queue_high && elapsed_high {
        let mut message = String::from_str(MERGE_QUEUE_HEAD);
        let items = decimal_string(metrics.merges_in_queue as u128);
        message.append(items.as_str());
        message.append(MERGE_BOTH_MIDDLE);
        let seconds = metrics.max_merge_elapsed_sec.to_rounded_string();
        message.append(seconds.as_str());
        message.append(MERGE_BOTH_TAIL);
        message
    } else if queue_high {
        let mut message = String::from_str(MERGE_QUEUE_HEAD);
        let items = decimal_string(metrics.merges_in_queue as u128);
        message.append(items.as_str());
        message.append(MERGE_QUEUE_MIDDLE);
        let limit = decimal_string(MERGE_QUEUE_WARNING as u128);
        message.append(limit.as_str());
        message.append(MERGE_QUEUE_TAIL);
        message
    } else {
        let mut message = String::from_str(MERGE_ELAPSED_HEAD);
        let seconds = metrics.max_merge_elapsed_sec.to_rounded_string();
        message.append(seconds.as_str());
        message.append(MERGE_ELAPSED_MIDDLE);
        let limit = decimal_string(MERGE_ELAPSED_WARNING_SEC as u128);
        message.append(limit.as_str());
        message.append(MERGE_ELAPSED_TAIL);
        message
    }
}

/// Every action that the rule proposes names the finding it belongs to.
pub proof fn merge_results_name_own_finding(entries: Seq<(Seq<char>, MergeMetrics)>)
    ensures
        all_name_own_finding(merge_results(entries)),
    decreases entries.len(),
{
    if entries.len() > 0 {
        merge_results_name_own_finding(entries.drop_last());
    }
}

impl Rule for MergeBacklogRule {
    fn id(&self) -> (r: &'static str)
        ensures
            r@ == MERGE_RULE_ID@,
    {
        MERGE_RULE_ID
    }

    fn name(&self) -> (r: &'static str)
        ensures
            r@ == MERGE_RULE_NAME@,
    {
        MERGE_RULE_NAME
    }

    fn evaluate(&self, ctx: &AuditContext) -> (r: Vec<RuleResult>)
        ensures
            results_view(r@) == merge_results(ctx@.merges),
    {
        let mut results: Vec<RuleResult> = Vec::new();
        let mut i: usize = 0;
        while i < ctx.merges.len()
            invariant
                i <= ctx.merges@.len(),
                results_view(results@) == merge_results(ctx.merges@.take(i as int)),
            decreases ctx.merges@.len() - i,
        {
            let key = ctx.merges.key_at(i);
            let metrics = ctx.merges.value_at(i);
            proof {
                assert(ctx.merges@.take(i + 1).drop_last() =~= ctx.merges@.take(i as int));
            }
            let queue_high = metrics.merges_in_queue > MERGE_QUEUE_WARNING;
            let elapsed_high = metrics.max_merge_elapsed_sec.is_above(MERGE_ELAPSED_WARNING_SEC);
            if queue_high || elapsed_high {
                let result = advise(
                    MERGE_RULE_ID,
                    MERGE_PREFIX,
                    results.len(),
                    Severity::Warning,
                    key.clone(),
                    merge_message(metrics, queue_high, elapsed_high),
                    Priority::Medium,
                    MERGE_ADVICE,
                    None,
                );
                results.push(result);
            }
            i = i + 1;
        }
        assert(ctx.merges@.take(ctx.merges@.len() as int) =~= ctx.merges@);
        results
    }
}

} // verus!
