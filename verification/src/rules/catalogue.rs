//! The built-in rules and the registry that holds them all.

use crate::rules::context::{AuditContext, AuditContextView};
use crate::rules::disk::{
    disk_results, disk_results_name_own_finding, DiskHeadroomRule, DISK_RULE_ID, DISK_RULE_NAME,
};
use crate::rules::engine::{
    all_name_own_finding, builtin_only, outcome_of, results_view, Rule,
    RuleRegistry, RuleResult, RuleResultView, Slot,
};
use crate::rules::merges::{
    merge_results, merge_results_name_own_finding, MergeBacklogRule, MERGE_RULE_ID,
    MERGE_RULE_NAME,
};
use crate::rules::mutations::{
    mutation_results, mutation_results_name_own_finding, StuckMutationRule, MUTATION_RULE_ID,
    MUTATION_RULE_NAME,
};
use crate::rules::parts::{
    parts_results, parts_results_name_own_finding, PartsExplosionRule, PARTS_RULE_ID,
    PARTS_RULE_NAME,
};
use crate::rules::query::{
    query_results, query_results_name_own_finding, QueryAmplificationRule, QUERY_RULE_ID,
    QUERY_RULE_NAME,
};
use vstd::prelude::*;

verus! {

/// The rules that the engine ships with.
#[derive(Debug, Clone, Copy, PartialEq, Eq, Structural)]
pub enum BuiltinRule {
    PartsExplosion,
    MergeBacklog,
    DiskHeadroom,
    QueryAmplification,
    StuckMutation,
}

impl BuiltinRule {
    /// The identifier of the rule.
    pub open spec fn id_text(self) -> Seq<char> {
        match self {
            BuiltinRule::PartsExplosion => PARTS_RULE_ID@,
            BuiltinRule::MergeBacklog => MERGE_RULE_ID@,
            BuiltinRule::DiskHeadroom => DISK_RULE_ID@,
            BuiltinRule::QueryAmplification => QUERY_RULE_ID@,
            BuiltinRule::StuckMutation => MUTATION_RULE_ID@,
        }
    }

    /// The name of the rule.
    pub open spec fn name_text(self) -> Seq<char> {
        match self {
            BuiltinRule::PartsExplosion => PARTS_RULE_NAME@,
            BuiltinRule::MergeBacklog => MERGE_RULE_NAME@,
            BuiltinRule::DiskHeadroom => DISK_RULE_NAME@,
            BuiltinRule::QueryAmplification => QUERY_RULE_NAME@,
            BuiltinRule::StuckMutation => MUTATION_RULE_NAME@,
        }
    }

    /// What the rule finds in `ctx`.
    pub open spec fn outcome(self, ctx: AuditContextView) -> Seq<RuleResultView> {
        match self {
            BuiltinRule::PartsExplosion => parts_results(ctx.parts),
            BuiltinRule::MergeBacklog => merge_results(ctx.merges),
            BuiltinRule::DiskHeadroom => disk_results(ctx.disk),
            BuiltinRule::QueryAmplification => query_results(ctx.queries),
            BuiltinRule::StuckMutation => mutation_results(ctx.mutations),
        }
    }
}

/// Every action that a built-in rule proposes names the finding it belongs
/// to.
pub proof fn builtin_outcome_names_own_finding(rule: BuiltinRule, ctx: AuditContextView)
    ensures
        all_name_own_finding(rule.outcome(ctx)),
{
    match rule {
        BuiltinRule::PartsExplosion => parts_results_name_own_finding(ctx.parts),
        BuiltinRule::MergeBacklog => merge_results_name_own_finding(ctx.merges),
        BuiltinRule::DiskHeadroom => disk_results_name_own_finding(ctx.disk),
        BuiltinRule::QueryAmplification => query_results_name_own_finding(ctx.queries),
        BuiltinRule::StuckMutation => mutation_results_name_own_finding(ctx.mutations),
    }
}

/// Every action that the built-in rules of a registry propose names the
/// finding it belongs to.
pub proof fn outcome_names_own_finding(slots: Seq<Slot>, ctx: AuditContextView)
    ensures
        all_name_own_finding(outcome_of(slots, ctx)),
    decreases slots.len(),
{
    if slots.len() > 0 {
        outcome_names_own_finding(slots.drop_last(), ctx);
        if let Slot::Builtin(rule) = slots.last() {
            builtin_outcome_names_own_finding(rule, ctx);
        }
    }
}

impl Rule for BuiltinRule {
    fn id(&self) -> (r: &'static str)
        ensures
            r@ == self.id_text(),
    {
        match self {
            BuiltinRule::PartsExplosion => PartsExplosionRule.id(),
            BuiltinRule::MergeBacklog => MergeBacklogRule.id(),
            BuiltinRule::DiskHeadroom => DiskHeadroomRule.id(),
            BuiltinRule::QueryAmplification => QueryAmplificationRule.id(),
            BuiltinRule::StuckMutation => StuckMutationRule.id(),
        }
    }

    fn name(&self) -> (r: &'static str)
        ensures
            r@ == self.name_text(),
    {
        match self {
            BuiltinRule::PartsExplosion => PartsExplosionRule.name(),
            BuiltinRule::MergeBacklog => MergeBacklogRule.name(),
            BuiltinRule::DiskHeadroom => DiskHeadroomRule.name(),
            BuiltinRule::QueryAmplification => QueryAmplificationRule.name(),
            BuiltinRule::StuckMutation => StuckMutationRule.name(),
        }
    }

    fn evaluate(&self, ctx: &AuditContext) -> (r: Vec<RuleResult>)
        ensures
            results_view(r@) == self.outcome(ctx@),
    {
        match self {
            BuiltinRule::PartsExplosion => PartsExplosionRule.evaluate(ctx),
            BuiltinRule::MergeBacklog => MergeBacklogRule.evaluate(ctx),
            BuiltinRule::DiskHeadroom => DiskHeadroomRule.evaluate(ctx),
            BuiltinRule::QueryAmplification => QueryAmplificationRule.evaluate(ctx),
            BuiltinRule::StuckMutation => StuckMutationRule.evaluate(ctx),
        }
    }
}

/// The slots of the default registry: the five built-in rules, in the order
/// parts, merges, disks, queries, mutations.
pub open spec fn default_slots() -> Seq<Slot> {
    seq![
        Slot::Builtin(BuiltinRule::PartsExplosion),
        Slot::Builtin(BuiltinRule::MergeBacklog),
        Slot::Builtin(BuiltinRule::DiskHeadroom),
        Slot::Builtin(BuiltinRule::QueryAmplification),
        Slot::Builtin(BuiltinRule::StuckMutation),
    ]
}

impl RuleRegistry {
    /// The registry of the five built-in rules, in the order parts, merges,
    /// disks, queries, mutations.
    pub fn with_default_rules() -> (r: Self)
        ensures
            r@ == default_slots(),
            builtin_only(r@),
    {
        let mut registry = RuleRegistry::new();
        registry.register_builtin(BuiltinRule::PartsExplosion);
        registry.register_builtin(BuiltinRule::MergeBacklog);
        registry.register_builtin(BuiltinRule::DiskHeadroom);
        registry.register_builtin(BuiltinRule::QueryAmplification);
        registry.register_builtin(BuiltinRule::StuckMutation);
        registry
    }
}

} // verus!
