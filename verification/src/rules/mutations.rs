//! The rule that watches unfinished mutations.

use crate::report::types::{MutationMetrics, Priority, Severity};
use crate::rules::context::AuditContext;
use crate::rules::engine::{
    advice, advise, all_name_own_finding, results_view, Rule, RuleResult,
    RuleResultView,
};
use crate::text::{tenths_string, tenths_text};
use vstd::prelude::*;
use vstd::string::StringExecFns;

verus! {

/// An unfinished mutation older than this many seconds is stuck.
pub const MUTATION_STUCK_SEC: u64 = 3600;

/// The seconds of one hour, the unit in which messages give the age.
pub const SECONDS_PER_HOUR: u64 = 3600;

/// The identifier of the rule.
pub const MUTATION_RULE_ID: &'static str = "stuck_mutation";

/// The name of the rule.
pub const MUTATION_RULE_NAME: &'static str = "Stuck Mutation";

/// What stands for the rule in the identifiers of its findings.
pub const MUTATION_PREFIX: &'static str = "mutation";

/// A piece of the message of a finding.
pub const MUTATION_MESSAGE_HEAD: &'static str = "Mutation running for ";

/// A piece of the message of a finding.
pub const MUTATION_MESSAGE_TAIL: &'static str = " hours (threshold: 1 hour)";

/// What the rule advises.
pub const MUTATION_ADVICE: &'static str = "Investigate mutation, consider KILL MUTATION if stuck";

/// A piece of the statement that the action proposes.
pub const MUTATION_SQL_HEAD: &'static str = "SELECT * FROM system.mutations WHERE database = '";

/// A piece of the statement that the action proposes.
pub const MUTATION_SQL_MIDDLE: &'static str = "' AND table = '";

/// A piece of the statement that the action proposes.
pub const MUTATION_SQL_TAIL: &'static str = "' AND is_done = 0";

/// Detects tables with a mutation that does not finish.
#[derive(Debug, Clone, Copy, PartialEq, Eq, Structural)]
pub struct StuckMutationRule;

/// The age of the stuck mutation of the table, if it has one: a mutation is
/// unfinished and the oldest unfinished one is older than
/// [`MUTATION_STUCK_SEC`].
pub open spec fn stuck_age(metrics: MutationMetrics) -> Option<u64> {
    if metrics.active_mutations > 0 {
        match metrics.oldest_active_mutation_age_sec {
            Some(age) => if age > MUTATION_STUCK_SEC {
                Some(age)
            } else {
                None
            },
            None => None,
        }
    } else {
        None
    }
}

/// The message for a mutation of the age `age`, in hours to one decimal
/// place.
pub open spec fn mutation_message_text(age: u64) -> Seq<char> {
    MUTATION_MESSAGE_HEAD@ + tenths_text(age as nat, SECONDS_PER_HOUR as nat)
        + MUTATION_MESSAGE_TAIL@
}

/// The query that lists the unfinished mutations of a table.
pub open spec fn pending_mutations_text(database: Seq<char>, table: Seq<char>) -> Seq<char> {
    MUTATION_SQL_HEAD@ + database + MUTATION_SQL_MIDDLE@ + table + MUTATION_SQL_TAIL@
}

/// The result for the table `key` whose stuck mutation has the age `age`, as
/// the `ordinal`-th finding of the rule.
pub open spec fn mutation_result(
    key: Seq<char>,
    metrics: MutationMetrics,
    age: u64,
    ordinal: nat,
) -> RuleResultView {
    advice(
        MUTATION_RULE_ID@,
        MUTATION_PREFIX@,
        ordinal,
        Severity::Critical,
        key,
        mutation_message_text(age),
        Priority::High,
        MUTATION_ADVICE@,
        Some(pending_mutations_text(metrics.database@, metrics.table@)),
    )
}

/// The results for the tables of `entries`, in their order: one for each
/// table with a stuck mutation, numbered from 1.
pub open spec fn mutation_results(entries: Seq<(Seq<char>, MutationMetrics)>) -> Seq<
    RuleResultView,
>
    decreases entries.len(),
{
    if entries.len() == 0 {
        Seq::empty()
    } else {
        let earlier = mutation_results(entries.drop_last());
        let (key, metrics) = entries.last();
        match stuck_age(metrics) {
            Some(age) => earlier.push(mutation_result(key, metrics, age, earlier.len() + 1)),
            None => earlier,
        }
    }
}

/// A mutation whose age is exactly the threshold is not stuck.
pub proof fn mutation_threshold_does_not_trigger(metrics: MutationMetrics)
    ensures
        metrics.oldest_active_mutation_age_sec == Some(MUTATION_STUCK_SEC) ==> stuck_age(metrics)
            is None,
{
}

fn mutation_message(age: u64) -> (r: String)
    ensures
        r@ == mutation_message_text(age),
{
    let mut message = String::from_str(MUTATION_MESSAGE_HEAD);
    let hours = tenths_string(age, SECONDS_PER_HOUR);
    message.append(hours.as_str());
    message.append(MUTATION_MESSAGE_TAIL);
    message
}

fn pending_mutations_query(database: &str, table: &str) -> (r: String)
    ensures
        r@ == pending_mutations_text(database@, table@),
{
    let mut sql = String::from_str(MUTATION_SQL_HEAD);
    sql.append(database);
    sql.append(MUTATION_SQL_MIDDLE);
    sql.append(table);
    sql.append(MUTATION_SQL_TAIL);
    sql
}

fn stuck_age_of(metrics: &MutationMetrics) -> (r: Option<u64>)
    ensures
        r == stuck_age(*metrics),
{
    if metrics.active_mutations > 0 {
        match metrics.oldest_active_mutation_age_sec {
            Some(age) => if age > MUTATION_STUCK_SEC {
                Some(age)
            } else {
                None
            },
            None => None,
        }
    } else {
        None
    }
}

/// Every action that the rule proposes names the finding it belongs to.
pub proof fn mutation_results_name_own_finding(entries: Seq<(Seq<char>, MutationMetrics)>)
    ensures
        all_name_own_finding(mutation_results(entries)),
    decreases entries.len(),
{
    if entries.len() > 0 {
        mutation_results_name_own_finding(entries.drop_last());
    }
}

impl Rule for StuckMutationRule {
    fn id(&self) -> (r: &'static str)
        ensures
            r@ == MUTATION_RULE_ID@,
    {
        MUTATION_RULE_ID
    }

    fn name(&self) -> (r: &'static str)
        ensures
            r@ == MUTATION_RULE_NAME@,
    {
        MUTATION_RULE_NAME
    }

    fn evaluate(&self, ctx: &AuditContext) -> (r: Vec<RuleResult>)
        ensures
            results_view(r@) == mutation_results(ctx@.mutations),
    {
        let mut results: Vec<RuleResult> = Vec::new();
        let mut i: usize = 0;
        while i < ctx.mutations.len()
            invariant
                i <= ctx.mutations@.len(),
                results_view(results@) == mutation_results(ctx.mutations@.take(i as int)),
            decreases ctx.mutations@.len() - i,
        {
            let key = ctx.mutations.key_at(i);
            let metrics = ctx.mutations.value_at(i);
            proof {
                assert(ctx.mutations@.take(i + 1).drop_last() =~= ctx.mutations@.take(i as int));
            }
            match stuck_age_of(metrics) {
                Some(age) => {
                    let result = advise(
                        MUTATION_RULE_ID,
                        MUTATION_PREFIX,
                        results.len(),
                        Severity::Critical,
                        key.clone(),
                        mutation_message(age),
                        Priority::High,
                        MUTATION_ADVICE,
                        Some(
                            pending_mutations_query(
                                metrics.database.as_str(),
                                metrics.table.as_str(),
                            ),
                        ),
                    );
                    results.push(result);
                },
                None => {},
            }
            i = i + 1;
        }
        assert(ctx.mutations@.take(ctx.mutations@.len() as int) =~= ctx.mutations@);
        results
    }
}

} // verus!
