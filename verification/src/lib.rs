//! Validation of a candidate mod package before it enters a curated registry:
//! the ordered checks, the controller that sequences them around the outside
//! work, and the report that both machines and people read.

pub mod text;
pub mod kinds;
pub mod cli;
pub mod model;
pub mod checks;
pub mod report;
pub mod pipeline;
pub mod verdict;
