use vstd::prelude::*;
use vstd::string::StringExecFns;

verus! {

/// Errors of the simulation core.
pub enum NsError {
    /// A terminal lies outside the service radius of every station, so no
    /// association can be made for it.
    UncoveredTerminal,
}

/// Errors of the worker-pool collaborator.
pub enum ThreadError {
    /// The operating system refused to create a worker thread; the payload
    /// carries the system's message.
    OSFailToCreateThread(String),
    /// A task could not be handed to the workers because every worker has
    /// exited; the payload carries the channel's message.
    TaskSendError(String),
}

impl ThreadError {
    /// A readable description of the error.
    pub fn message(&self) -> (s: String)
        ensures
            self is OSFailToCreateThread ==> s@
                == "The thread spawned by os face unexpected situation."@,
            self matches ThreadError::TaskSendError(m) ==> s@
                == "The task sent by thread pool failure. Flume error: "@ + m@,
    {
        match self {
            ThreadError::OSFailToCreateThread(_) => String::from_str(
                "The thread spawned by os face unexpected situation.",
            ),
            ThreadError::TaskSendError(m) => String::from_str(
                "The task sent by thread pool failure. Flume error: ",
            ).concat(m.as_str()),
        }
    }
}

} // verus!
