//! Decoding of a batch of sequences over a paged key/value cache.
pub mod batch;
pub mod drain;
pub mod formula;
pub mod layer;
pub mod model;
pub mod scheduler;
