//! The error kinds that a handle operation can end in.

use vstd::prelude::*;
use vstd::std_specs::convert::FromSpecImpl;

verus! {

/// `std::io::Error`, the failure of a byte source or sink. Nothing is known
/// of what a value holds: it is carried from the stream to the caller.
#[verifier::external_type_specification]
#[verifier::external_body]
pub struct ExIoError(std::io::Error);

/// Why a handle operation failed.
#[derive(Debug)]
pub enum Errno {
    /// The operation needs a position or a size, and a pipe has neither.
    Spipe,
    /// The operation needs a directory, and a pipe is never one.
    Notdir,
    /// The stream under the pipe failed; the cause is the stream's own error,
    /// as it was handed back.
    Io(std::io::Error),
}

impl From<std::io::Error> for Errno {
    /// Wraps a stream's failure, keeping the cause.
    fn from(e: std::io::Error) -> (res: Errno) {
        Errno::Io(e)
    }
}

impl FromSpecImpl<std::io::Error> for Errno {
    open spec fn obeys_from_spec() -> bool {
        true
    }

    open spec fn from_spec(e: std::io::Error) -> Errno {
        Errno::Io(e)
    }
}

/// What a handle operation hands on of a stream's answer: the count as it
/// is, a failure wrapped as an I/O failure.
pub open spec fn lifted(res: Result<usize, std::io::Error>) -> Result<usize, Errno> {
    match res {
        Ok(n) => Ok(n),
        Err(e) => Err(Errno::Io(e)),
    }
}

/// Turns a stream's answer into a handle operation's answer.
pub fn lift(res: Result<usize, std::io::Error>) -> (out: Result<usize, Errno>)
    ensures
        out == lifted(res),
{
    match res {
        Ok(n) => Ok(n),
        Err(e) => Err(Errno::from(e)),
    }
}

} // verus!
