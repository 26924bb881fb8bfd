//! The order of a compilation, and what follows each of its stages.
pub mod exit;
pub mod grad;
pub mod messages;
pub mod native;
pub mod options;
pub mod pipeline;
pub mod runtime;
pub mod train;
