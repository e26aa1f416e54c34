//! The two kinds of failure of the terminal backend, and the retry rule for
//! calls that a signal interrupts.
use vstd::prelude::*;

verus! {

/// A failure of the terminal backend.
#[derive(Clone, Copy, Debug, PartialEq, Eq, Structural)]
pub enum TermError {
    /// A system call failed with this OS error code.
    Io(i32),
    /// A required capability or terminal attribute could not be resolved.
    Init,
}

/// Whether an OS error code is the interrupted-call error.
pub uninterp spec fn is_interrupted_code(code: i32) -> bool;

/// Relies on nix's `Errno::EINTR`, which is libc's `EINTR`: tells whether a
/// code reports a call that a signal interrupted.
#[verifier::external_body]
pub(crate) fn interrupted(code: i32) -> (r: bool)
    ensures
        r == is_interrupted_code(code),
{
    code == nix::errno::Errno::EINTR as i32
}

/// One attempt of a call that is retried while a signal interrupts it:
/// `None` asks for another attempt, `Some` is the call's final result.
pub fn retry<R>(attempt: Result<R, i32>) -> (r: Option<Result<R, TermError>>)
    ensures
        match attempt {
            Ok(v) => r == Some(Ok::<R, TermError>(v)),
            Err(code) => if is_interrupted_code(code) {
                r == None::<Result<R, TermError>>
            } else {
                r == Some(Err::<R, TermError>(TermError::Io(code)))
            },
        },
{
    match attempt {
        Ok(v) => Some(Ok(v)),
        Err(code) => {
            if interrupted(code) {
                None
            } else {
                Some(Err(TermError::Io(code)))
            }
        },
    }
}

} // verus!
