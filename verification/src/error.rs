//! The conditions that the kernel reports to its caller.

use vstd::prelude::*;

verus! {

/// Why an operation could not produce an object.
#[derive(Debug, Clone, Copy, PartialEq, Eq, Structural)]
pub enum ObjectError {
    /// The exact result of an integer operation does not fit in 64 bits.
    ArithmeticOverflow,
    /// The allocator has no identity left to hand out.
    IdentityExhausted,
}

} // verus!
