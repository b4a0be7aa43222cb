//! The rules that judge collected metrics, and the registry that runs them.

pub mod catalogue;
pub mod context;
pub mod disk;
pub mod engine;
pub mod merges;
pub mod mutations;
pub mod parts;
pub mod query;

pub use catalogue::BuiltinRule;
pub use context::{AuditContext, AuditContextView, MetricTable};
pub use disk::DiskHeadroomRule;
pub use engine::{Rule, RuleRegistry, RuleResult, RuleResultView, Slot};
pub use merges::MergeBacklogRule;
pub use mutations::StuckMutationRule;
pub use parts::PartsExplosionRule;
pub use query::{truncate_fingerprint, QueryAmplificationRule};
