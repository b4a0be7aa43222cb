//! The text forms of a report.

pub mod summary;

pub use crate::text::truncate;
pub use summary::{format_summary, render_summary};
