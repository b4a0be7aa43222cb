//! What a rule is, what it returns, and the registry that runs rules in order.

use crate::report::decimal::Decimal;
use crate::report::types::{
    text_of_option, Action, ActionType, ActionView, Finding, FindingView, Priority, Severity,
};
use crate::rules::catalogue::BuiltinRule;
use crate::rules::context::{AuditContext, AuditContextView};
use crate::text::{decimal_string, decimal_text};
use vstd::prelude::*;
use vstd::string::StringExecFns;

verus! {

/// One finding of a rule with the actions proposed for it.
#[derive(Debug)]
pub struct RuleResult {
    pub finding: Finding,
    pub actions: Vec<Action>,
}

/// The model of a [`RuleResult`].
pub struct RuleResultView {
    pub finding: FindingView,
    pub actions: Seq<ActionView>,
}

impl View for RuleResult {
    type V = RuleResultView;

    open spec fn view(&self) -> RuleResultView {
        RuleResultView {
            finding: self.finding@,
            actions: self.actions@.map_values(|a: Action| a@),
        }
    }
}

/// The models of a sequence of results.
pub open spec fn results_view(results: Seq<RuleResult>) -> Seq<RuleResultView> {
    results.map_values(|r: RuleResult| r@)
}

/// Whether every action of the result names the result's own finding.
pub open spec fn names_own_finding(result: RuleResultView) -> bool {
    forall|i: int|
        0 <= i < result.actions.len() ==> (#[trigger] result.actions[i]).finding_ref
            == result.finding.id
}

/// Whether every action of every result names its result's finding.
pub open spec fn all_name_own_finding(results: Seq<RuleResultView>) -> bool {
    forall|i: int| 0 <= i < results.len() ==> names_own_finding(#[trigger] results[i])
}

/// What a finding identifier begins with.
pub const FINDING_MARK: &'static str = "f-";

/// What an action identifier begins with.
pub const ACTION_MARK: &'static str = "a-";

/// What stands between a rule's prefix and the number in an identifier.
pub const NUMBER_MARK: &'static str = "-";

/// The identifier of the `ordinal`-th finding of the rule with the prefix
/// `prefix`: `f-<prefix>-<ordinal>`.
pub open spec fn finding_id_text(prefix: Seq<char>, ordinal: nat) -> Seq<char> {
    FINDING_MARK@ + prefix + NUMBER_MARK@ + decimal_text(ordinal)
}

/// The identifier of the action that belongs to the `ordinal`-th finding:
/// `a-<prefix>-<ordinal>`.
pub open spec fn action_id_text(prefix: Seq<char>, ordinal: nat) -> Seq<char> {
    ACTION_MARK@ + prefix + NUMBER_MARK@ + decimal_text(ordinal)
}

/// Full confidence: `1.00`.
pub open spec fn certain() -> Decimal {
    Decimal { hundredths: 100 }
}

/// A finding of full confidence, without evidence references, together with
/// one recommendation that names it.
pub open spec fn advice(
    rule_id: Seq<char>,
    prefix: Seq<char>,
    ordinal: nat,
    severity: Severity,
    target: Seq<char>,
    message: Seq<char>,
    priority: Priority,
    description: Seq<char>,
    sql: Option<Seq<char>>,
) -> RuleResultView {
    RuleResultView {
        finding: FindingView {
            id: finding_id_text(prefix, ordinal),
            rule_id,
            severity,
            target,
            message,
            evidence_refs: Seq::empty(),
            confidence: certain(),
        },
        actions: seq![
            ActionView {
                id: action_id_text(prefix, ordinal),
                finding_ref: finding_id_text(prefix, ordinal),
                action_type: ActionType::Recommendation,
                priority,
                description,
                sql,
            },
        ],
    }
}

/// The action of an [`advice`] names its finding.
pub proof fn advice_names_own_finding(
    rule_id: Seq<char>,
    prefix: Seq<char>,
    ordinal: nat,
    severity: Severity,
    target: Seq<char>,
    message: Seq<char>,
    priority: Priority,
    description: Seq<char>,
    sql: Option<Seq<char>>,
)
    ensures
        names_own_finding(
            advice(rule_id, prefix, ordinal, severity, target, message, priority, description, sql),
        ),
{
}

fn numbered_id(mark: &str, prefix: &str, ordinal: u128) -> (r: String)
    ensures
        r@ == mark@ + prefix@ + NUMBER_MARK@ + decimal_text(ordinal as nat),
{
    let mut id = String::from_str(mark);
    id.append(prefix);
    id.append(NUMBER_MARK);
    let digits = decimal_string(ordinal);
    id.append(digits.as_str());
    id
}

/// Builds the result that [`advice`] describes for the finding that follows
/// `earlier` findings of the same rule.
pub fn advise(
    rule_id: &str,
    prefix: &str,
    earlier: usize,
    severity: Severity,
    target: String,
    message: String,
    priority: Priority,
    description: &str,
    sql: Option<String>,
) -> (r: RuleResult)
    ensures
        r@ == advice(
            rule_id@,
            prefix@,
            (earlier + 1) as nat,
            severity,
            target@,
            message@,
            priority,
            description@,
            text_of_option(sql),
        ),
{
    let ordinal = earlier as u128 + 1;
    let finding = Finding {
        id: numbered_id(FINDING_MARK, prefix, ordinal),
        rule_id: String::from_str(rule_id),
        severity,
        target,
        message,
        evidence_refs: Vec::new(),
        confidence: Decimal { hundredths: 100 },
    };
    let action = Action {
        id: numbered_id(ACTION_MARK, prefix, ordinal),
        finding_ref: numbered_id(FINDING_MARK, prefix, ordinal),
        action_type: ActionType::Recommendation,
        priority,
        description: String::from_str(description),
        sql,
    };
    let mut actions: Vec<Action> = Vec::new();
    actions.push(action);
    let r = RuleResult { finding, actions };
    assert(r@.finding.evidence_refs =~= Seq::empty());
    assert(r@.actions =~= seq![action@]);
    r
}

/// An audit rule: a function from the context to findings with their
/// actions. The built-in rules implement it, and so may rules of the caller.
pub trait Rule: Send + Sync {
    /// The identifier of the rule: stable, and unique in a registry.
    fn id(&self) -> &'static str;

    /// The name of the rule, for readers.
    fn name(&self) -> &'static str;

    /// Evaluates the rule on `ctx`. A rule does not fail: a context without
    /// matching metrics gives no result.
    fn evaluate(&self, ctx: &AuditContext) -> Vec<RuleResult>;
}

/// A registered rule: one of the built-in rules, or a rule of the caller's.
pub enum Slot {
    Builtin(BuiltinRule),
    Custom(Box<dyn Rule>),
}

impl Slot {
    /// The slot that holds `rule`, a rule of the caller's.
    fn custom(rule: Box<dyn Rule>) -> (r: Slot)
        ensures
            r == Slot::Custom(rule),
            r is Custom,
    {
        Slot::Custom(rule)
    }

    fn id(&self) -> (r: &'static str)
        ensures
            match *self {
                Slot::Builtin(rule) => r@ == rule.id_text(),
                Slot::Custom(_) => true,
            },
    {
        match self {
            Slot::Builtin(rule) => rule.id(),
            Slot::Custom(rule) => rule.id(),
        }
    }

    fn evaluate(&self, ctx: &AuditContext) -> (r: Vec<RuleResult>)
        ensures
            match *self {
                Slot::Builtin(rule) => results_view(r@) == rule.outcome(ctx@),
                Slot::Custom(_) => true,
            },
    {
        match self {
            Slot::Builtin(rule) => rule.evaluate(ctx),
            Slot::Custom(rule) => rule.evaluate(ctx),
        }
    }
}

/// Whether `slots` holds built-in rules only.
pub open spec fn builtin_only(slots: Seq<Slot>) -> bool {
    forall|i: int| 0 <= i < slots.len() ==> (#[trigger] slots[i]) is Builtin
}

/// Whether `per_rule` may be what the rules of `slots` find in `ctx`, rule by
/// rule: a built-in rule finds its outcome; of what a rule of the caller's
/// finds nothing is known.
pub open spec fn explains(
    slots: Seq<Slot>,
    ctx: AuditContextView,
    per_rule: Seq<Seq<RuleResultView>>,
) -> bool {
    &&& per_rule.len() == slots.len()
    &&& forall|i: int|
        0 <= i < slots.len() ==> match #[trigger] slots[i] {
            Slot::Builtin(rule) => per_rule[i] == rule.outcome(ctx),
            Slot::Custom(_) => true,
        }
}

/// The results of all rules: those of an earlier rule before those of a later
/// one.
pub open spec fn joined(per_rule: Seq<Seq<RuleResultView>>) -> Seq<RuleResultView>
    decreases per_rule.len(),
{
    if per_rule.len() == 0 {
        Seq::empty()
    } else {
        joined(per_rule.drop_last()) + per_rule.last()
    }
}

/// Whether the rules of `slots` may find `found` in `ctx`.
pub open spec fn may_find(slots: Seq<Slot>, ctx: AuditContextView, found: Seq<RuleResultView>) -> bool {
    exists|per_rule: Seq<Seq<RuleResultView>>|
        explains(slots, ctx, per_rule) && found == joined(per_rule)
}

/// What the built-in rules of `slots` find in `ctx`, one rule after the
/// other.
pub open spec fn outcome_of(slots: Seq<Slot>, ctx: AuditContextView) -> Seq<RuleResultView>
    decreases slots.len(),
{
    if slots.len() == 0 {
        Seq::empty()
    } else {
        outcome_of(slots.drop_last(), ctx) + match slots.last() {
            Slot::Builtin(rule) => rule.outcome(ctx),
            Slot::Custom(_) => Seq::empty(),
        }
    }
}

/// Built-in rules find exactly their outcomes, in registration order.
pub proof fn builtin_rules_find_their_outcome(
    slots: Seq<Slot>,
    ctx: AuditContextView,
    found: Seq<RuleResultView>,
)
    requires
        builtin_only(slots),
        may_find(slots, ctx, found),
    ensures
        found == outcome_of(slots, ctx),
{
    let per_rule = choose|per_rule: Seq<Seq<RuleResultView>>|
        explains(slots, ctx, per_rule) && found == joined(per_rule);
    explained_outcome(slots, ctx, per_rule);
}

proof fn explained_outcome(slots: Seq<Slot>, ctx: AuditContextView, per_rule: Seq<Seq<RuleResultView>>)
    requires
        builtin_only(slots),
        explains(slots, ctx, per_rule),
    ensures
        joined(per_rule) == outcome_of(slots, ctx),
    decreases slots.len(),
{
    if slots.len() > 0 {
        let fewer = slots.drop_last();
        explained_outcome(fewer, ctx, per_rule.drop_last());
    }
}

/// An ordered list of rules.
pub struct RuleRegistry {
    rules: Vec<Slot>,
}

impl View for RuleRegistry {
    type V = Seq<Slot>;

    /// The registered rules, in registration order.
    closed spec fn view(&self) -> Seq<Slot> {
        self.rules@
    }
}

impl RuleRegistry {
    /// A registry without rules.
    pub fn new() -> (r: Self)
        ensures
            r@.len() == 0,
    {
        RuleRegistry { rules: Vec::new() }
    }

    /// Appends a rule of the caller's.
    pub fn register(&mut self, rule: Box<dyn Rule>)
        ensures
            final(self)@.len() == old(self)@.len() + 1,
            final(self)@.drop_last() == old(self)@,
            final(self)@.last() is Custom,
    {
        let slot = Slot::custom(rule);
        self.rules.push(slot);
    }

    /// Appends a built-in rule.
    pub fn register_builtin(&mut self, rule: BuiltinRule)
        ensures
            final(self)@ == old(self)@.push(Slot::Builtin(rule)),
    {
        self.rules.push(Slot::Builtin(rule));
    }

    /// Evaluates every rule on `ctx` and returns their results, those of a
    /// rule registered earlier before those of a rule registered later. A
    /// built-in rule contributes its outcome.
    pub fn evaluate_all(&self, ctx: &AuditContext) -> (r: Vec<RuleResult>)
        ensures
            may_find(self@, ctx@, results_view(r@)),
            builtin_only(self@) ==> results_view(r@) == outcome_of(self@, ctx@),
    {
        let mut all: Vec<RuleResult> = Vec::new();
        let ghost mut per_rule: Seq<Seq<RuleResultView>> = Seq::empty();
        let mut i: usize = 0;
        while i < self.rules.len()
            invariant
                i <= self.rules.len(),
                explains(self@.take(i as int), ctx@, per_rule),
                results_view(all@) == joined(per_rule),
            decreases self.rules.len() - i,
        {
            let mut found = self.rules[i].evaluate(ctx);
            let ghost added = found@;
            let ghost earlier = per_rule;
            all.append(&mut found);
            proof {
                per_rule = earlier.push(results_view(added));
                assert(per_rule.drop_last() =~= earlier);
            }
            i = i + 1;
        }
        proof {
            assert(self@.take(self.rules.len() as int) =~= self@);
            if builtin_only(self@) {
                builtin_rules_find_their_outcome(self@, ctx@, results_view(all@));
            }
        }
        all
    }

    /// The number of registered rules.
    pub fn len(&self) -> (r: usize)
        ensures
            r == self@.len(),
    {
        self.rules.len()
    }

    /// Whether no rule is registered.
    pub fn is_empty(&self) -> (r: bool)
        ensures
            r == (self@.len() == 0),
    {
        self.rules.len() == 0
    }

    /// The identifiers of the registered rules, in registration order.
    pub fn rule_ids(&self) -> (r: Vec<&'static str>)
        ensures
            r@.len() == self@.len(),
            forall|i: int|
                0 <= i < r@.len() ==> match #[trigger] self@[i] {
                    Slot::Builtin(rule) => r@[i]@ == rule.id_text(),
                    Slot::Custom(_) => true,
                },
    {
        let mut ids: Vec<&'static str> = Vec::new();
        let mut i: usize = 0;
        while i < self.rules.len()
            invariant
                i <= self.rules.len(),
                ids@.len() == i,
                forall|j: int|
                    0 <= j < ids@.len() ==> match #[trigger] self.rules@[j] {
                        Slot::Builtin(rule) => ids@[j]@ == rule.id_text(),
                        Slot::Custom(_) => true,
                    },
            decreases self.rules.len() - i,
        {
            let id = self.rules[i].id();
            ids.push(id);
            i = i + 1;
        }
        ids
    }
}

impl Default for RuleRegistry {
    fn default() -> (r: Self)
        ensures
            r@.len() == 0,
    {
        RuleRegistry::new()
    }
}

} // verus!
