//! A paginated fetch-and-fold pipeline over the open pull requests of one
//! repository: successive search pages are decoded, each issue is projected to
//! a reduced record that keeps only the length of its body, the records are
//! accumulated in page order, and two reductions (oldest entry, longest body)
//! are computed over the final accumulator.

pub mod decode;
pub mod driver;
pub mod records;
pub mod report;
pub mod stats;
pub mod text;
