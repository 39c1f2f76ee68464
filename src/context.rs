use vstd::prelude::*;

verus! {

/// Why an execution-context operation could not be carried out.
#[derive(Clone, Copy, Debug, PartialEq, Eq, Structural)]
pub enum ContextError {
    /// An operating-system primitive failed; the payload is its error number.
    Platform(i32),
    /// A stack shorter than the platform's floor for signal delivery was offered.
    StackTooSmall,
}

/// Accepts a stack of `len` bytes for a new context only when it reaches the
/// platform's `floor`; shorter stacks are refused rather than overrun.
pub fn check_stack(len: usize, floor: usize) -> (r: Result<(), ContextError>)
    ensures
        r is Ok <==> len >= floor,
        r is Err ==> r == Err::<(), ContextError>(ContextError::StackTooSmall),
{
    if len >= floor {
        Ok(())
    } else {
        Err(ContextError::StackTooSmall)
    }
}

} // verus!
