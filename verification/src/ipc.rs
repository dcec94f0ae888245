//! The messages exchanged with the precached daemon.
//!
//! A path the daemon reports travels as JSON text, so the library keeps it as
//! the `String` that the JSON held.
use vstd::prelude::*;
use crate::clock::Timestamp;

verus! {

/// Represents a process
#[derive(Debug, Clone)]
pub struct Process {
    pub pid: libc::pid_t,
    pub comm: String,
}

/// Represents an in-flight trace
#[derive(Debug, Clone)]
pub struct TracerEntry {
    pub start_time: Timestamp,
    pub trace_time_expired: bool,
    pub exe: String,
}

/// The states a prefetcher thread can be in
#[derive(Debug, Clone)]
pub enum ThreadState {
    Uninitialized,
    Idle,
    Error(String),
    PrefetchingFile(String),
    PrefetchingFileMetadata(String),
    UnmappingFile(String),
}

/// The prefetcher threads' states at one moment
#[derive(Debug, Clone)]
pub struct PrefetchStats {
    pub datetime: Timestamp,
    pub thread_states: Vec<ThreadState>,
}

/// An event inside the daemon
#[derive(Debug, Clone)]
pub struct InternalEvent {
    pub datetime: Timestamp,
    pub name: String,
}

/// One sample of the daemon's statistics
#[derive(Debug, Clone)]
pub struct Statistics {
    pub datetime: Timestamp,
}

/// The commands of the IPC protocol: requests of the GUI and the daemon's replies.
#[derive(Debug)]
pub enum IpcCommand {
    Ping,
    Pong,
    Connect,
    ConnectedSuccessfuly,
    Close,
    RequestTrackedProcesses,
    SendTrackedProcesses(Vec<Process>),
    RequestInFlightTracers,
    SendInFlightTracers(Vec<TracerEntry>),
    RequestPrefetchStatus,
    SendPrefetchStatus(PrefetchStats),
    RequestInternalEvents,
    SendInternalEvents(Vec<InternalEvent>),
    RequestCachedFiles,
    SendCachedFiles(Vec<String>),
    RequestStatistics,
    SendStatistics(Vec<Statistics>),
}

/// A command together with the time it was sent
#[derive(Debug)]
pub struct IpcMessage {
    pub datetime: Timestamp,
    pub command: IpcCommand,
}

impl IpcMessage {
    /// Wraps `command` in a message stamped with `datetime`, the time at
    /// which it is sent.
    pub fn new(command: IpcCommand, datetime: Timestamp) -> (msg: IpcMessage)
        ensures
            msg.command == command,
            msg.datetime == datetime,
    {
        IpcMessage { datetime: datetime, command: command }
    }
}

} // verus!
