//! The failures a job can end in.

use vstd::prelude::*;

verus! {

/// The four families of failure.
#[derive(Clone, Copy, Debug, PartialEq, Eq, Structural)]
pub enum ErrorKind {
    /// Reading or writing local storage failed.
    Io,
    /// The retrieval did not answer with the plain success status.
    Transport,
    /// The conversion tool could not be run or did not exit cleanly.
    Process,
    /// A destination cannot be handed to the conversion tool.
    Config,
}

/// The failure of one job.
#[derive(Clone, Copy, Debug, PartialEq, Eq, Structural)]
pub enum Error {
    /// Reading or writing a destination failed.
    Io,
    /// The request could not be carried out, or its body could not be read.
    TransportFailure,
    /// The server answered with this status, which is not 200.
    TransportStatus(u16),
    /// The conversion tool could not be started or waited for.
    ProcessSpawn,
    /// The conversion tool exited with this non-zero code.
    ProcessExit(i32),
    /// The conversion tool ended without an exit code.
    ProcessNoExitCode,
    /// The destination is not valid UTF-8, so it cannot be an argument.
    Config,
}

impl Error {
    /// The family a failure belongs to.
    pub open spec fn spec_kind(self) -> ErrorKind {
        match self {
            Error::Io => ErrorKind::Io,
            Error::TransportFailure | Error::TransportStatus(_) => ErrorKind::Transport,
            Error::ProcessSpawn | Error::ProcessExit(_) | Error::ProcessNoExitCode =>
                ErrorKind::Process,
            Error::Config => ErrorKind::Config,
        }
    }

    /// The family a failure belongs to.
    #[verifier::when_used_as_spec(spec_kind)]
    pub fn kind(self) -> (kind: ErrorKind)
        ensures
            kind == self.spec_kind(),
    {
        match self {
            Error::Io => ErrorKind::Io,
            Error::TransportFailure => ErrorKind::Transport,
            Error::TransportStatus(_) => ErrorKind::Transport,
            Error::ProcessSpawn => ErrorKind::Process,
            Error::ProcessExit(_) => ErrorKind::Process,
            Error::ProcessNoExitCode => ErrorKind::Process,
            Error::Config => ErrorKind::Config,
        }
    }
}

} // verus!
