//! A one-shot audit engine for MergeTree-family analytics databases.
//!
//! Collected metrics are gathered in a [`report::ReportBuilder`], judged by the
//! rules of a [`rules::RuleRegistry`], and assembled into a [`report::Report`]
//! whose findings, actions and evidence obey the invariants stated in the
//! contracts of this crate.

pub mod collectors;
pub mod output;
pub mod report;
pub mod rules;
pub mod text;
