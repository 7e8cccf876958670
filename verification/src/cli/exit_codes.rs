//! Exit codes of the command-line program.

use vstd::prelude::*;

verus! {

/// Success
pub const SUCCESS: i32 = 0;

/// General error
pub const ERROR: i32 = 1;

/// Invalid arguments
pub const INVALID_ARGS: i32 = 2;

/// Device not found
pub const DEVICE_NOT_FOUND: i32 = 3;

} // verus!
