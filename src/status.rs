use vstd::prelude::*;

verus! {

/// ABI code: the plugin failed to process.
pub const PROCESS_ERROR: i32 = 0;

/// ABI code: processing succeeded, keep calling.
pub const PROCESS_CONTINUE: i32 = 1;

/// ABI code: keep calling only while the input is not quiet.
pub const PROCESS_CONTINUE_IF_NOT_QUIET: i32 = 2;

/// ABI code: the plugin is rendering a tail.
pub const PROCESS_TAIL: i32 = 3;

/// ABI code: no more processing is needed until the next event.
pub const PROCESS_SLEEP: i32 = 4;

/// How the plugin asks to be driven after a successful process cycle.
#[derive(Clone, Copy, Debug, PartialEq, Eq, Structural)]
pub enum ProcessStatus {
    Continue,
    ContinueIfNotQuiet,
    Tail,
    Sleep,
}

/// The plugin reported that the process cycle failed.
#[derive(Clone, Copy, Debug, PartialEq, Eq, Structural)]
pub struct ProcessError;

/// The status code of the ABI that stands for `s`.
pub open spec fn status_code(s: ProcessStatus) -> i32 {
    match s {
        ProcessStatus::Continue => PROCESS_CONTINUE,
        ProcessStatus::ContinueIfNotQuiet => PROCESS_CONTINUE_IF_NOT_QUIET,
        ProcessStatus::Tail => PROCESS_TAIL,
        ProcessStatus::Sleep => PROCESS_SLEEP,
    }
}

/// How a raw status code reads: `None` for a code outside the ABI's set,
/// `Some(Err(_))` for the error code.
pub open spec fn decode_status(raw: i32) -> Option<Result<ProcessStatus, ProcessError>> {
    if raw == PROCESS_ERROR {
        Some(Err(ProcessError))
    } else if raw == PROCESS_CONTINUE {
        Some(Ok(ProcessStatus::Continue))
    } else if raw == PROCESS_CONTINUE_IF_NOT_QUIET {
        Some(Ok(ProcessStatus::ContinueIfNotQuiet))
    } else if raw == PROCESS_TAIL {
        Some(Ok(ProcessStatus::Tail))
    } else if raw == PROCESS_SLEEP {
        Some(Ok(ProcessStatus::Sleep))
    } else {
        None
    }
}

impl ProcessStatus {
    /// Reads a raw status code returned by a foreign process function.
    pub fn from_raw(raw: i32) -> (r: Option<Result<ProcessStatus, ProcessError>>)
        ensures
            r == decode_status(raw),
    {
        if raw == PROCESS_ERROR {
            Some(Err(ProcessError))
        } else if raw == PROCESS_CONTINUE {
            Some(Ok(ProcessStatus::Continue))
        } else if raw == PROCESS_CONTINUE_IF_NOT_QUIET {
            Some(Ok(ProcessStatus::ContinueIfNotQuiet))
        } else if raw == PROCESS_TAIL {
            Some(Ok(ProcessStatus::Tail))
        } else if raw == PROCESS_SLEEP {
            Some(Ok(ProcessStatus::Sleep))
        } else {
            None
        }
    }

    /// The raw status code of the ABI for this status.
    pub fn as_raw(self) -> (r: i32)
        ensures
            r == status_code(self),
    {
        match self {
            ProcessStatus::Continue => PROCESS_CONTINUE,
            ProcessStatus::ContinueIfNotQuiet => PROCESS_CONTINUE_IF_NOT_QUIET,
            ProcessStatus::Tail => PROCESS_TAIL,
            ProcessStatus::Sleep => PROCESS_SLEEP,
        }
    }
}

/// Every status reads back as itself from its raw code.
pub proof fn lemma_status_round_trip(s: ProcessStatus)
    ensures
        decode_status(status_code(s)) == Some(Ok::<ProcessStatus, ProcessError>(s)),
{
}

} // verus!
