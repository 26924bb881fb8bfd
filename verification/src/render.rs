//! Diagnostics as annotated text for a terminal.
pub mod attached;
pub mod diagnostic;
pub mod escapes;
pub mod order;
pub mod renderer;
pub mod shown;
