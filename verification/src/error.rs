//! The failures that an operation of the registry reports.

use vstd::prelude::*;

verus! {

/// What kind of failure an operation ended in. Whatever the kind, the state is left as it
/// was.
#[derive(Clone, Copy, Debug, PartialEq, Eq, Structural)]
pub enum ExitCode {
    /// The input is malformed, names an unknown verifier, names one verifier twice, asks
    /// for an amount that is not positive, or asks to delete what is not there.
    IllegalArgument,
    /// A signature does not authorize the request.
    Forbidden,
    /// The persistent maps could not be read or written: the store is damaged, or a root
    /// does not identify a map.
    IllegalState,
    /// The call to the token actor failed.
    CallFailed,
}

/// A failure, with its kind and a message for the reader.
#[derive(Debug)]
pub struct ActorError {
    exit_code: ExitCode,
    msg: String,
}

impl ActorError {
    pub closed spec fn spec_exit_code(&self) -> ExitCode {
        self.exit_code
    }

    #[verifier::when_used_as_spec(spec_exit_code)]
    pub fn exit_code(&self) -> (r: ExitCode)
        ensures
            r == self.exit_code(),
    {
        self.exit_code
    }

    /// The message that the failure was made with.
    pub fn msg(&self) -> (r: &String)
        ensures
            r@ == self.spec_msg(),
    {
        &self.msg
    }

    /// A failure for an illegal argument, with the message given.
    pub fn illegal_argument(msg: String) -> (r: ActorError)
        ensures
            r.exit_code() == ExitCode::IllegalArgument,
            r.spec_msg() == msg@,
    {
        ActorError { exit_code: ExitCode::IllegalArgument, msg }
    }

    /// A failure for a request that is forbidden, with the message given.
    pub fn forbidden(msg: String) -> (r: ActorError)
        ensures
            r.exit_code() == ExitCode::Forbidden,
            r.spec_msg() == msg@,
    {
        ActorError { exit_code: ExitCode::Forbidden, msg }
    }

    /// A failure for an illegal state, with the message given.
    pub fn illegal_state(msg: String) -> (r: ActorError)
        ensures
            r.exit_code() == ExitCode::IllegalState,
            r.spec_msg() == msg@,
    {
        ActorError { exit_code: ExitCode::IllegalState, msg }
    }

    /// A failure of the call to the token actor, with the message given.
    pub fn call_failed(msg: String) -> (r: ActorError)
        ensures
            r.exit_code() == ExitCode::CallFailed,
            r.spec_msg() == msg@,
    {
        ActorError { exit_code: ExitCode::CallFailed, msg }
    }

    /// The characters of the message.
    pub closed spec fn spec_msg(&self) -> Seq<char> {
        self.msg@
    }
}

} // verus!
