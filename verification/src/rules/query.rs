//! The rule that watches the read amplification of queries.

use crate::report::decimal::Decimal;
use crate::report::types::{Priority, QueryMetrics, Severity};
use crate::rules::context::AuditContext;
use crate::rules::engine::{
    advice, advise, all_name_own_finding, results_view, Rule, RuleResult,
    RuleResultView,
};
use crate::text::{decimal_string, decimal_text, rounded_text, truncate, truncated_text};
use vstd::prelude::*;
use vstd::string::StringExecFns;

verus! {

/// A read amplification above this is a warning.
pub const READ_AMP_WARNING: u32 = 100;

/// A read amplification above this is critical.
pub const READ_AMP_CRITICAL: u32 = 1000;

/// The longest target, in characters, that a finding of this rule carries.
pub const FINGERPRINT_LIMIT: usize = 80;

/// The identifier of the rule.
pub const QUERY_RULE_ID: &'static str = "query_amplification";

/// The name of the rule.
pub const QUERY_RULE_NAME: &'static str = "Query Read Amplification";

/// What stands for the rule in the identifiers of its findings.
pub const QUERY_PREFIX: &'static str = "query";

/// A piece of the message of a finding.
pub const QUERY_MESSAGE_HEAD: &'static str = "Query has ";

/// A piece of the message of a finding.
pub const QUERY_MESSAGE_CRITICAL: &'static str = "x read amplification (critical threshold: ";

/// A piece of the message of a finding.
pub const QUERY_MESSAGE_WARNING: &'static str = "x read amplification (warning threshold: ";

/// A piece of the message of a finding.
pub const QUERY_MESSAGE_TAIL: &'static str = "x)";

/// What the rule advises for a critical finding.
pub const QUERY_ADVICE_CRITICAL: &'static str = "Review query, add PREWHERE or adjust ORDER BY";

/// What the rule advises for a warning.
pub const QUERY_ADVICE_WARNING: &'static str = "Consider optimizing query pattern";

/// Detects queries that read many more rows than they return.
#[derive(Debug, Clone, Copy, PartialEq, Eq, Structural)]
pub struct QueryAmplificationRule;

/// How grave the read amplification is: critical above
/// [`READ_AMP_CRITICAL`], a warning above [`READ_AMP_WARNING`], else nothing.
pub open spec fn query_verdict(read_amplification: Decimal) -> Option<Severity> {
    if read_amplification.above_units(READ_AMP_CRITICAL as nat) {
        Some(Severity::Critical)
    } else if read_amplification.above_units(READ_AMP_WARNING as nat) {
        Some(Severity::Warning)
    } else {
        None
    }
}

/// The message for a read amplification, rounded to a whole number, that
/// passed `threshold`; `middle` names the threshold.
pub open spec fn query_message_text(
    read_amplification: Decimal,
    middle: Seq<char>,
    threshold: nat,
) -> Seq<char> {
    QUERY_MESSAGE_HEAD@ + rounded_text(read_amplification.hundredths as nat, 100) + middle
        + decimal_text(threshold) + QUERY_MESSAGE_TAIL@
}

/// The result for `query`, judged `severity`, as the `ordinal`-th finding of
/// the rule. The target is the fingerprint, cut to [`FINGERPRINT_LIMIT`]
/// characters.
pub open spec fn query_result(query: QueryMetrics, severity: Severity, ordinal: nat) -> RuleResultView {
    match severity {
        Severity::Critical => advice(
            QUERY_RULE_ID@,
            QUERY_PREFIX@,
            ordinal,
            Severity::Critical,
            truncated_text(query.query_fingerprint@, FINGERPRINT_LIMIT as nat),
            query_message_text(
                query.read_amplification,
                QUERY_MESSAGE_CRITICAL@,
                READ_AMP_CRITICAL as nat,
            ),
            Priority::High,
            QUERY_ADVICE_CRITICAL@,
            None,
        ),
        Severity::Warning => advice(
            QUERY_RULE_ID@,
            QUERY_PREFIX@,
            ordinal,
            Severity::Warning,
            truncated_text(query.query_fingerprint@, FINGERPRINT_LIMIT as nat),
            query_message_text(
                query.read_amplification,
                QUERY_MESSAGE_WARNING@,
                READ_AMP_WARNING as nat,
            ),
            Priority::Medium,
            QUERY_ADVICE_WARNING@,
            None,
        ),
    }
}

/// The results for `queries`, in their order: one for each query whose
/// verdict is a severity, numbered from 1.
pub open spec fn query_results(queries: Seq<QueryMetrics>) -> Seq<RuleResultView>
    decreases queries.len(),
{
    if queries.len() == 0 {
        Seq::empty()
    } else {
        let earlier = query_results(queries.drop_last());
        match query_verdict(queries.last().read_amplification) {
            Some(severity) => earlier.push(
                query_result(queries.last(), severity, earlier.len() + 1),
            ),
            None => earlier,
        }
    }
}

/// A query whose read amplification is exactly a threshold does not reach the
/// severity of that threshold.
pub proof fn query_threshold_does_not_trigger(read_amplification: Decimal)
    ensures
        read_amplification.hundredths == 100 * READ_AMP_WARNING ==> query_verdict(
            read_amplification,
        ) is None,
        read_amplification.hundredths == 100 * READ_AMP_CRITICAL ==> query_verdict(
            read_amplification,
        ) == Some(Severity::Warning),
{
}

/// Cuts a query fingerprint to [`FINGERPRINT_LIMIT`] characters; a longer one
/// keeps its first 77 characters and ends in `...`.
pub fn truncate_fingerprint(fp: &str) -> (r: String)
    ensures
        r@ == truncated_text(fp@, FINGERPRINT_LIMIT as nat),
{
    truncate(fp, FINGERPRINT_LIMIT)
}

fn query_message(read_amplification: Decimal, middle: &str, threshold: u32) -> (r: String)
    ensures
        r@ == query_message_text(read_amplification, middle@, threshold as nat),
{
    let mut message = String::from_str(QUERY_MESSAGE_HEAD);
    let factor = read_amplification.to_rounded_string();
    message.append(factor.as_str());
    message.append(middle);
    let limit = decimal_string(threshold as u128);
    message.append(limit.as_str());
    message.append(QUERY_MESSAGE_TAIL);
    message
}

/// Every action that the rule proposes names the finding it belongs to.
pub proof fn query_results_name_own_finding(queries: Seq<QueryMetrics>)
    ensures
        all_name_own_finding(query_results(queries)),
    decreases queries.len(),
{
    if queries.len() > 0 {
        query_results_name_own_finding(queries.drop_last());
    }
}

impl Rule for QueryAmplificationRule {
    fn id(&self) -> (r: &'static str)
        ensures
            r@ == QUERY_RULE_ID@,
    {
        QUERY_RULE_ID
    }

    fn name(&self) -> (r: &'static str)
        ensures
            r@ == QUERY_RULE_NAME@,
    {
        QUERY_RULE_NAME
    }

    fn evaluate(&self, ctx: &AuditContext) -> (r: Vec<RuleResult>)
        ensures
            results_view(r@) == query_results(ctx@.queries),
    {
        let mut results: Vec<RuleResult> = Vec::new();
        let mut i: usize = 0;
        while i < ctx.queries.len()
            invariant
                i <= ctx.queries@.len(),
                results_view(results@) == query_results(ctx.queries@.take(i as int)),
            decreases ctx.queries@.len() - i,
        {
            let query = &ctx.queries[i];
            proof {
                assert(ctx.queries@.take(i + 1).drop_last() =~= ctx.queries@.take(i as int));
            }
            if query.read_amplification.is_above(READ_AMP_CRITICAL) {
                let result = advise(
                    QUERY_RULE_ID,
                    QUERY_PREFIX,
                    results.len(),
                    Severity::Critical,
                    truncate_fingerprint(query.query_fingerprint.as_str()),
                    query_message(
                        query.read_amplification,
                        QUERY_MESSAGE_CRITICAL,
                        READ_AMP_CRITICAL,
                    ),
                    Priority::High,
                    QUERY_ADVICE_CRITICAL,
                    None,
                );
                results.push(result);
            } else if query.read_amplification.is_above(READ_AMP_WARNING) {
                let result = advise(
                    QUERY_RULE_ID,
                    QUERY_PREFIX,
                    results.len(),
                    Severity::Warning,
                    truncate_fingerprint(query.query_fingerprint.as_str()),
                    query_message(
                        query.read_amplification,
                        QUERY_MESSAGE_WARNING,
                        READ_AMP_WARNING,
                    ),
                    Priority::Medium,
                    QUERY_ADVICE_WARNING,
                    None,
                );
                results.push(result);
            }
            i = i + 1;
        }
        assert(ctx.queries@.take(ctx.queries@.len() as int) =~= ctx.queries@);
        results
    }
}

} // verus!
