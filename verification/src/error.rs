//! The error taxonomy of the controller. Each variant carries the detail
//! text shown to the user; `message` renders the canonical description.

use vstd::prelude::*;

verus! {

/// Why a command or a control loop failed.
#[derive(Debug, PartialEq, Eq)]
pub enum Error {
    /// The requested session id is absent from the store.
    SessionNotFound(String),
    /// Opening a channel to the debug server failed.
    ConnectionFailed(String),
    /// A server-side or loop-internal fault while running.
    DebugLoop(String),
    /// A queue send failed or a response had an unexpected shape.
    InternalCommunication(String),
    /// The operation needs the session in another status.
    InvalidSessionState(String),
    /// Another session already uses the same server and command.
    SessionAlreadyExists,
}

impl Clone for Error {
    fn clone(&self) -> (res: Self)
        ensures
            res == *self,
    {
        match self {
            Error::SessionNotFound(m) => Error::SessionNotFound(m.clone()),
            Error::ConnectionFailed(m) => Error::ConnectionFailed(m.clone()),
            Error::DebugLoop(m) => Error::DebugLoop(m.clone()),
            Error::InternalCommunication(m) => Error::InternalCommunication(m.clone()),
            Error::InvalidSessionState(m) => Error::InvalidSessionState(m.clone()),
            Error::SessionAlreadyExists => Error::SessionAlreadyExists,
        }
    }
}

/// The canonical description of an error.
pub open spec fn spec_error_message(e: Error) -> Seq<char> {
    match e {
        Error::SessionNotFound(m) => "Session not found: "@ + m@,
        Error::ConnectionFailed(m) => "Failed to connect to debug server: "@ + m@,
        Error::DebugLoop(m) => "Debug loop failed: "@ + m@,
        Error::InternalCommunication(m) => "Internal communication failed: "@ + m@,
        Error::InvalidSessionState(m) => "Invalid session state: "@ + m@,
        Error::SessionAlreadyExists =>
            "A session with the same server and command already exists"@,
    }
}

impl Error {
    /// Render the error as the user sees it.
    pub fn message(&self) -> (r: String)
        ensures
            r@ == spec_error_message(*self),
    {
        match self {
            Error::SessionNotFound(m) => {
                proof { reveal_strlit("Session not found: "); }
                let mut r = String::from_str("Session not found: ");
                r.append(m.as_str());
                r
            },
            Error::ConnectionFailed(m) => {
                proof { reveal_strlit("Failed to connect to debug server: "); }
                let mut r = String::from_str("Failed to connect to debug server: ");
                r.append(m.as_str());
                r
            },
            Error::DebugLoop(m) => {
                proof { reveal_strlit("Debug loop failed: "); }
                let mut r = String::from_str("Debug loop failed: ");
                r.append(m.as_str());
                r
            },
            Error::InternalCommunication(m) => {
                proof { reveal_strlit("Internal communication failed: "); }
                let mut r = String::from_str("Internal communication failed: ");
                r.append(m.as_str());
                r
            },
            Error::InvalidSessionState(m) => {
                proof { reveal_strlit("Invalid session state: "); }
                let mut r = String::from_str("Invalid session state: ");
                r.append(m.as_str());
                r
            },
            Error::SessionAlreadyExists => {
                proof {
                    reveal_strlit("A session with the same server and command already exists");
                }
                String::from_str("A session with the same server and command already exists")
            },
        }
    }
}

} // verus!
