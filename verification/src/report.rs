//! The report document and the records it is made of.

pub mod builder;
pub mod decimal;
pub(crate) mod stamp;
pub mod types;

pub use builder::{ReportBuilder, ReportBuilderView};
pub use decimal::Decimal;
pub use types::{
    Action, ActionType, ActionView, DiskMetrics, DiskSection, Evidence, EvidenceView, Finding,
    FindingView, MergeMetrics, MergesSection, MutationMetrics, MutationsSection, MvDagEdge,
    MvDagEdgeView, MvDagNode, MvDagNodeView, MvDagSection, MvDagSectionView, PartsMetrics,
    PartsSection, Priority, QueryLogSection, QueryMetrics, Report, ReportStatus, Sections,
    Severity, Summary, TableType, Targets,
};
