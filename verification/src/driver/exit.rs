//! The exit codes of the compiler.
use vstd::prelude::*;

verus! {

pub const OK: i32 = 0;

pub const COMPILE_ERROR: i32 = 1;

pub const UNIMPLEMENTED: i32 = 2;

pub const IO_ERROR: i32 = 3;

} // verus!
