//! The rule that watches the free share of each disk.

use crate::report::decimal::Decimal;
use crate::report::types::{DiskMetrics, Priority, Severity};
use crate::rules::context::AuditContext;
use crate::rules::engine::{
    advice, advise, all_name_own_finding, results_view, Rule, RuleResult,
    RuleResultView,
};
use crate::text::{tenths_string, tenths_text};
use vstd::prelude::*;
use vstd::string::StringExecFns;

verus! {

/// Less free space than this, in percent, is a warning.
pub const DISK_WARNING_PCT: u32 = 20;

/// Less free space than this, in percent, is critical.
pub const DISK_CRITICAL_PCT: u32 = 10;

/// The bytes of one gigabyte, the unit in which messages give free space.
pub const BYTES_PER_GB: u64 = 1073741824;

/// The identifier of the rule.
pub const DISK_RULE_ID: &'static str = "disk_headroom";

/// The name of the rule.
pub const DISK_RULE_NAME: &'static str = "Disk Headroom";

/// What stands for the rule in the identifiers of its findings.
pub const DISK_PREFIX: &'static str = "disk";

/// A piece of the message of a finding.
pub const DISK_MESSAGE_HEAD: &'static str = "Disk ";

/// A piece of the message of a finding.
pub const DISK_MESSAGE_PERCENT: &'static str = " has only ";

/// A piece of the message of a finding.
pub const DISK_MESSAGE_SPACE: &'static str = "% free (";

/// A piece of the message of a finding.
pub const DISK_MESSAGE_TAIL: &'static str = "GB)";

/// What the rule advises for a critical finding.
pub const DISK_ADVICE_CRITICAL: &'static str = "Expand storage or implement TTL policy urgently";

/// What the rule advises for a warning.
pub const DISK_ADVICE_WARNING: &'static str = "Consider expanding storage or implementing TTL";

/// Detects disks that run out of free space.
#[derive(Debug, Clone, Copy, PartialEq, Eq, Structural)]
pub struct DiskHeadroomRule;

/// How grave the free share is: critical below [`DISK_CRITICAL_PCT`], a
/// warning below [`DISK_WARNING_PCT`], else nothing.
pub open spec fn disk_verdict(free_percent: Decimal) -> Option<Severity> {
    if free_percent.below_units(DISK_CRITICAL_PCT as nat) {
        Some(Severity::Critical)
    } else if free_percent.below_units(DISK_WARNING_PCT as nat) {
        Some(Severity::Warning)
    } else {
        None
    }
}

/// The message for a disk: its name, its free share to one decimal place, and
/// its free space in gigabytes to one decimal place.
pub open spec fn disk_message_text(disk: DiskMetrics) -> Seq<char> {
    DISK_MESSAGE_HEAD@ + disk.disk_name@ + DISK_MESSAGE_PERCENT@ + tenths_text(
        disk.free_percent.hundredths as nat,
        100,
    ) + DISK_MESSAGE_SPACE@ + tenths_text(disk.free_space as nat, BYTES_PER_GB as nat)
        + DISK_MESSAGE_TAIL@
}

/// The result for `disk`, judged `severity`, as the `ordinal`-th finding of
/// the rule.
pub open spec fn disk_result(disk: DiskMetrics, severity: Severity, ordinal: nat) -> RuleResultView {
    match severity {
        Severity::Critical => advice(
            DISK_RULE_ID@,
            DISK_PREFIX@,
            ordinal,
            Severity::Critical,
            disk.disk_name@,
            disk_message_text(disk),
            Priority::High,
            DISK_ADVICE_CRITICAL@,
            None,
        ),
        Severity::Warning => advice(
            DISK_RULE_ID@,
            DISK_PREFIX@,
            ordinal,
            Severity::Warning,
            disk.disk_name@,
            disk_message_text(disk),
            Priority::Medium,
            DISK_ADVICE_WARNING@,
            None,
        ),
    }
}

/// The results for `disks`, in their order: one for each disk whose verdict
/// is a severity, numbered from 1.
pub open spec fn disk_results(disks: Seq<DiskMetrics>) -> Seq<RuleResultView>
    decreases disks.len(),
{
    if disks.len() == 0 {
        Seq::empty()
    } else {
        let earlier = disk_results(disks.drop_last());
        match disk_verdict(disks.last().free_percent) {
            Some(severity) => earlier.push(disk_result(disks.last(), severity, earlier.len() + 1)),
            None => earlier,
        }
    }
}

/// A disk whose free share is exactly a threshold does not reach the severity
/// of that threshold.
pub proof fn disk_threshold_does_not_trigger(free_percent: Decimal)
    ensures
        free_percent.hundredths == 100 * DISK_WARNING_PCT ==> disk_verdict(free_percent) is None,
        free_percent.hundredths == 100 * DISK_CRITICAL_PCT ==> disk_verdict(free_percent) == Some(
            Severity::Warning,
        ),
{
}

fn disk_message(disk: &DiskMetrics) -> (r: String)
    ensures
        r@ == disk_message_text(*disk),
{
    let mut message = String::from_str(DISK_MESSAGE_HEAD);
    message.append(disk.disk_name.as_str());
    message.append(DISK_MESSAGE_PERCENT);
    let percent = disk.free_percent.to_tenths_string();
    message.append(percent.as_str());
    message.append(DISK_MESSAGE_SPACE);
    let space = tenths_string(disk.free_space, BYTES_PER_GB);
    message.append(space.as_str());
    message.append(DISK_MESSAGE_TAIL);
    message
}

/// Every action that the rule proposes names the finding it belongs to.
pub proof fn disk_results_name_own_finding(disks: Seq<DiskMetrics>)
    ensures
        all_name_own_finding(disk_results(disks)),
    decreases disks.len(),
{
    if disks.len() > 0 {
        disk_results_name_own_finding(disks.drop_last());
    }
}

impl Rule for DiskHeadroomRule {
    fn id(&self) -> (r: &'static str)
        ensures
            r@ == DISK_RULE_ID@,
    {
        DISK_RULE_ID
    }

    fn name(&self) -> (r: &'static str)
        ensures
            r@ == DISK_RULE_NAME@,
    {
        DISK_RULE_NAME
    }

    fn evaluate(&self, ctx: &AuditContext) -> (r: Vec<RuleResult>)
        ensures
            results_view(r@) == disk_results(ctx@.disk),
    {
        let mut results: Vec<RuleResult> = Vec::new();
        let mut i: usize = 0;
        while i < ctx.disk.len()
            invariant
                i <= ctx.disk@.len(),
                results_view(results@) == disk_results(ctx.disk@.take(i as int)),
            decreases ctx.disk@.len() - i,
        {
            let disk = &ctx.disk[i];
            proof {
                assert(ctx.disk@.take(i + 1).drop_last() =~= ctx.disk@.take(i as int));
            }
            if disk.free_percent.is_below(DISK_CRITICAL_PCT) {
                let result = advise(
                    DISK_RULE_ID,
                    DISK_PREFIX,
                    results.len(),
                    Severity::Critical,
                    disk.disk_name.clone(),
                    disk_message(disk),
                    Priority::High,
                    DISK_ADVICE_CRITICAL,
                    None,
                );
                results.push(result);
            } else if disk.free_percent.is_below(DISK_WARNING_PCT) {
                let result = advise(
                    DISK_RULE_ID,
                    DISK_PREFIX,
                    results.len(),
                    Severity::Warning,
                    disk.disk_name.clone(),
                    disk_message(disk),
                    Priority::Medium,
                    DISK_ADVICE_WARNING,
                    None,
                );
                results.push(result);
            }
            i = i + 1;
        }
        assert(ctx.disk@.take(ctx.disk@.len() as int) =~= ctx.disk@);
        results
    }
}

} // verus!
