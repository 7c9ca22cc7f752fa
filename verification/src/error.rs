use vstd::prelude::*;

verus! {

/// Errors of the program, as plain values.
#[derive(Debug, Clone, Copy, PartialEq, Eq, Structural)]
pub enum ProcessError {
    /// Fewer accounts than the program needs, or no instruction data.
    NotEnoughAccountKeys,
    /// An argument was refused, such as a rent rate too large to compute with.
    InvalidArgument,
    /// Any other failure that the runtime reported, by its program error code.
    Runtime(u64),
}

} // verus!
