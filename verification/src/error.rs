use vstd::prelude::*;

verus! {

/// The rejections this program itself can report; every other failure is a
/// pass-through rejection of the host's account validation.
#[derive(Clone, Copy, Debug, PartialEq, Eq, Structural)]
pub enum HookError {
    /// The instruction data does not name the one supported operation.
    InvalidInstructionData,
    /// The fixed account this program allocates exactly once exists already.
    AccountAlreadyInUse,
}

} // verus!
