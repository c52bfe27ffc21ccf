//! The error taxonomy of context setup and steady-state rendering.

use vstd::prelude::*;

verus! {

/// Everything that can go wrong while building or driving a rendering
/// context.  Setup errors abort construction; `FrameError` is reported from
/// the steady-state loop and is fatal there as well.
#[derive(Clone, Copy, Debug, PartialEq, Eq, Structural)]
pub enum ContextError {
    /// A capability query against the driver failed.
    QueryError,
    /// No enumerated physical device satisfies the selection constraints.
    NoSuitableDeviceError,
    /// A required capability list (formats, present modes) came back empty.
    EmptyCapabilityError,
    /// A native object creation call returned a non-success status.
    HandleCreationError,
    /// Acquisition, submission, or presentation reported an abnormal status.
    FrameError,
}

impl ContextError {
    /// A short description of the failing step, for reporting an abort.
    pub fn message(&self) -> (m: &'static str)
        ensures
            m@.len() > 0,
            self is QueryError ==> m@ == "a capability query against the driver failed"@,
            self is NoSuitableDeviceError ==> m@
                == "no enumerated device satisfies the selection constraints"@,
            self is EmptyCapabilityError ==> m@ == "a required capability list came back empty"@,
            self is HandleCreationError ==> m@ == "a native object creation call failed"@,
            self is FrameError ==> m@
                == "frame acquisition, submission, or presentation failed"@,
    {
        proof {
            reveal_strlit("a capability query against the driver failed");
            reveal_strlit("no enumerated device satisfies the selection constraints");
            reveal_strlit("a required capability list came back empty");
            reveal_strlit("a native object creation call failed");
            reveal_strlit("frame acquisition, submission, or presentation failed");
        }
        match self {
            ContextError::QueryError => "a capability query against the driver failed",
            ContextError::NoSuitableDeviceError => "no enumerated device satisfies the selection constraints",
            ContextError::EmptyCapabilityError => "a required capability list came back empty",
            ContextError::HandleCreationError => "a native object creation call failed",
            ContextError::FrameError => "frame acquisition, submission, or presentation failed",
        }
    }
}

} // verus!
