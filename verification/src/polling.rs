//! The conversation of the IPC thread with the daemon: first a connection
//! request, then the five status requests in turn, forever. The thread does
//! the sending and receiving; the decisions are made here.
use vstd::prelude::*;
use crate::ipc::{IpcCommand, IpcMessage};

verus! {

/// The five kinds of status the GUI keeps asking the daemon for, in the
/// order in which it asks.
#[derive(Clone, Copy, Debug)]
pub enum PollTarget {
    TrackedProcesses,
    InFlightTracers,
    PrefetchStatus,
    InternalEvents,
    CachedFiles,
}

/// Where the conversation stands: the connection request is due, or the
/// request for one kind of status.
#[derive(Clone, Copy, Debug)]
pub enum IpcPhase {
    Connecting,
    Polling(PollTarget),
}

/// The position of a status kind in the polling round, from 0 to 4.
pub open spec fn target_position(t: PollTarget) -> int {
    match t {
        PollTarget::TrackedProcesses => 0,
        PollTarget::InFlightTracers => 1,
        PollTarget::PrefetchStatus => 2,
        PollTarget::InternalEvents => 3,
        PollTarget::CachedFiles => 4,
    }
}

/// The status kind at position `k` of the polling round (taken modulo 5).
pub open spec fn target_at(k: int) -> PollTarget {
    let m = k % 5;
    if m == 0 {
        PollTarget::TrackedProcesses
    } else if m == 1 {
        PollTarget::InFlightTracers
    } else if m == 2 {
        PollTarget::PrefetchStatus
    } else if m == 3 {
        PollTarget::InternalEvents
    } else {
        PollTarget::CachedFiles
    }
}

/// The request that is sent in a phase.
pub open spec fn phase_request(phase: IpcPhase) -> IpcCommand {
    match phase {
        IpcPhase::Connecting => IpcCommand::Connect,
        IpcPhase::Polling(PollTarget::TrackedProcesses) => IpcCommand::RequestTrackedProcesses,
        IpcPhase::Polling(PollTarget::InFlightTracers) => IpcCommand::RequestInFlightTracers,
        IpcPhase::Polling(PollTarget::PrefetchStatus) => IpcCommand::RequestPrefetchStatus,
        IpcPhase::Polling(PollTarget::InternalEvents) => IpcCommand::RequestInternalEvents,
        IpcPhase::Polling(PollTarget::CachedFiles) => IpcCommand::RequestCachedFiles,
    }
}

/// The phase that follows a phase once its request has been answered, or
/// has failed: after the connection request the polling round starts, and
/// the round wraps around after the cached files.
pub open spec fn following_phase(phase: IpcPhase) -> IpcPhase {
    match phase {
        IpcPhase::Connecting => IpcPhase::Polling(PollTarget::TrackedProcesses),
        IpcPhase::Polling(t) => IpcPhase::Polling(target_at(target_position(t) + 1)),
    }
}

/// The reply that is folded into the shared data: only a reply that arrived
/// to a status request; the answer to the connection request is not kept,
/// and a failed request brings nothing.
pub open spec fn reply_to_keep(phase: IpcPhase, reply: Result<IpcMessage, String>) -> Option<IpcMessage> {
    match phase {
        IpcPhase::Connecting => None,
        IpcPhase::Polling(_) => match reply {
            Ok(msg) => Some(msg),
            Err(_) => None,
        },
    }
}

/// The phase of the conversation after `n` requests have been made.
pub open spec fn phase_after(n: nat) -> IpcPhase
    decreases n,
{
    if n == 0 {
        IpcPhase::Connecting
    } else {
        following_phase(phase_after((n - 1) as nat))
    }
}

impl IpcPhase {
    /// The phase in which the conversation starts: the connection request is due.
    pub fn start() -> (phase: IpcPhase)
        ensures
            phase == phase_after(0),
    {
        IpcPhase::Connecting
    }

    /// The request to send in this phase.
    pub fn request(&self) -> (cmd: IpcCommand)
        ensures
            cmd == phase_request(*self),
            *self is Connecting ==> cmd is Connect,
            *self == IpcPhase::Polling(PollTarget::TrackedProcesses) ==> cmd is RequestTrackedProcesses,
            *self == IpcPhase::Polling(PollTarget::InFlightTracers) ==> cmd is RequestInFlightTracers,
            *self == IpcPhase::Polling(PollTarget::PrefetchStatus) ==> cmd is RequestPrefetchStatus,
            *self == IpcPhase::Polling(PollTarget::InternalEvents) ==> cmd is RequestInternalEvents,
            *self == IpcPhase::Polling(PollTarget::CachedFiles) ==> cmd is RequestCachedFiles,
    {
        match self {
            IpcPhase::Connecting => IpcCommand::Connect,
            IpcPhase::Polling(PollTarget::TrackedProcesses) => IpcCommand::RequestTrackedProcesses,
            IpcPhase::Polling(PollTarget::InFlightTracers) => IpcCommand::RequestInFlightTracers,
            IpcPhase::Polling(PollTarget::PrefetchStatus) => IpcCommand::RequestPrefetchStatus,
            IpcPhase::Polling(PollTarget::InternalEvents) => IpcCommand::RequestInternalEvents,
            IpcPhase::Polling(PollTarget::CachedFiles) => IpcCommand::RequestCachedFiles,
        }
    }

    /// Takes the outcome of this phase's request (the daemon's reply, or why
    /// none came) and returns the next phase together with the reply to fold
    /// into the shared data, if any.
    pub fn on_reply(self, reply: Result<IpcMessage, String>) -> (out: (IpcPhase, Option<IpcMessage>))
        ensures
            out.0 == following_phase(self),
            out.1 == reply_to_keep(self, reply),
            out.0 is Polling,
            self is Connecting ==> target_position(out.0->Polling_0) == 0,
            self matches IpcPhase::Polling(t)
                ==> target_position(out.0->Polling_0) == (target_position(t) + 1) % 5,
            (self is Polling && reply is Ok) ==> out.1 == Some(reply->Ok_0),
            !(self is Polling && reply is Ok) ==> out.1 is None,
    {
        let next = match self {
            IpcPhase::Connecting => IpcPhase::Polling(PollTarget::TrackedProcesses),
            IpcPhase::Polling(PollTarget::TrackedProcesses) => IpcPhase::Polling(PollTarget::InFlightTracers),
            IpcPhase::Polling(PollTarget::InFlightTracers) => IpcPhase::Polling(PollTarget::PrefetchStatus),
            IpcPhase::Polling(PollTarget::PrefetchStatus) => IpcPhase::Polling(PollTarget::InternalEvents),
            IpcPhase::Polling(PollTarget::InternalEvents) => IpcPhase::Polling(PollTarget::CachedFiles),
            IpcPhase::Polling(PollTarget::CachedFiles) => IpcPhase::Polling(PollTarget::TrackedProcesses),
        };
        let keep = match self {
            IpcPhase::Connecting => None,
            IpcPhase::Polling(_) => match reply {
                Ok(msg) => Some(msg),
                Err(_) => None,
            },
        };
        (next, keep)
    }
}

/// The order of the requests: the first request is the connection request,
/// and after it the `n`-th request (counting from 1) asks for the status kind
/// at position `(n - 1) % 5` of the round (tracked processes, in-flight
/// tracers, prefetcher status, internal events, cached files).
pub proof fn lemma_request_order(n: nat)
    ensures
        n == 0 ==> phase_request(phase_after(n)) == IpcCommand::Connect,
        n > 0 ==> phase_after(n) == IpcPhase::Polling(target_at(n - 1)),
    decreases n,
{
    if n == 1 {
        assert(target_at(0) == PollTarget::TrackedProcesses);
    } else if n > 1 {
        lemma_request_order((n - 1) as nat);
        lemma_next_target((n - 2) as int);
    }
}

proof fn lemma_next_target(k: int)
    requires
        0 <= k,
    ensures
        target_at(target_position(target_at(k)) + 1) == target_at(k + 1),
{
    let m = k % 5;
    assert(0 <= m < 5);
    assert(target_position(target_at(k)) == m);
    assert((m + 1) % 5 == (k + 1) % 5);
}

/// Every status kind is asked for again five requests later: the polling
/// round repeats with period five.
pub proof fn lemma_round_period(n: nat)
    requires
        n > 0,
    ensures
        phase_after(n + 5) == phase_after(n),
{
    lemma_request_order(n);
    lemma_request_order(n + 5);
    assert((n + 4) % 5 == (n - 1) % 5);
}

/// Neither the answer to the connection request nor a failed request ever
/// reaches the shared data.
pub proof fn lemma_only_status_replies_are_kept(phase: IpcPhase, reply: Result<IpcMessage, String>)
    ensures
        reply_to_keep(phase, reply) is Some <==> (phase is Polling && reply is Ok),
{
}

/// In a polling phase the reply that arrived is kept exactly as it came; in
/// the connecting phase, or when the request failed, nothing is kept.
pub proof fn lemma_kept_reply_is_the_reply(phase: IpcPhase, reply: Result<IpcMessage, String>)
    ensures
        (phase is Polling && reply is Ok) ==> reply_to_keep(phase, reply) == Some(reply->Ok_0),
        !(phase is Polling && reply is Ok) ==> reply_to_keep(phase, reply) is None,
{
}

/// Each phase is followed by a polling phase: the first status kind after the
/// connection request, and the next kind of the round (wrapping around)
/// after a status request.
pub proof fn lemma_next_phase_steps_round(phase: IpcPhase)
    ensures
        following_phase(phase) is Polling,
        phase is Connecting ==> target_position(following_phase(phase)->Polling_0) == 0,
        phase matches IpcPhase::Polling(t)
            ==> target_position(following_phase(phase)->Polling_0) == (target_position(t) + 1) % 5,
{
    if let IpcPhase::Polling(t) = phase {
        lemma_next_target_position(target_position(t));
    }
}

proof fn lemma_next_target_position(k: int)
    requires
        0 <= k < 5,
    ensures
        target_position(target_at(k + 1)) == (k + 1) % 5,
{
}

} // verus!
