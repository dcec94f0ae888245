use precached_gui::clock::Timestamp;
use precached_gui::ipc::{IpcCommand, IpcMessage};
use precached_gui::polling::{IpcPhase, PollTarget};

fn reply(command: IpcCommand) -> IpcMessage {
    IpcMessage { datetime: Timestamp { seconds: 1, nanoseconds: 0 }, command }
}

fn name(c: &IpcCommand) -> &'static str {
    match c {
        IpcCommand::Connect => "Connect",
        IpcCommand::RequestTrackedProcesses => "RequestTrackedProcesses",
        IpcCommand::RequestInFlightTracers => "RequestInFlightTracers",
        IpcCommand::RequestPrefetchStatus => "RequestPrefetchStatus",
        IpcCommand::RequestInternalEvents => "RequestInternalEvents",
        IpcCommand::RequestCachedFiles => "RequestCachedFiles",
        _ => "other",
    }
}

#[test]
fn first_request_is_connect() {
    let phase = IpcPhase::start();
    assert!(matches!(phase, IpcPhase::Connecting));
    assert!(matches!(phase.request(), IpcCommand::Connect));
}

#[test]
fn requests_follow_the_polling_round() {
    let mut phase = IpcPhase::start();
    let mut sent = Vec::new();
    for _ in 0..12 {
        sent.push(name(&phase.request()));
        let (next, _) = phase.on_reply(Err("Could not send data via a socket".to_string()));
        phase = next;
    }
    assert_eq!(
        sent,
        vec![
            "Connect",
            "RequestTrackedProcesses",
            "RequestInFlightTracers",
            "RequestPrefetchStatus",
            "RequestInternalEvents",
            "RequestCachedFiles",
            "RequestTrackedProcesses",
            "RequestInFlightTracers",
            "RequestPrefetchStatus",
            "RequestInternalEvents",
            "RequestCachedFiles",
            "RequestTrackedProcesses",
        ]
    );
}

#[test]
fn round_repeats_after_five_requests() {
    let mut phase = IpcPhase::Polling(PollTarget::PrefetchStatus);
    for _ in 0..5 {
        phase = phase.on_reply(Ok(reply(IpcCommand::Pong))).0;
    }
    assert!(matches!(phase, IpcPhase::Polling(PollTarget::PrefetchStatus)));
}

#[test]
fn connect_reply_is_not_kept() {
    let (next, keep) = IpcPhase::Connecting.on_reply(Ok(reply(IpcCommand::ConnectedSuccessfuly)));
    assert!(keep.is_none());
    assert!(matches!(next, IpcPhase::Polling(PollTarget::TrackedProcesses)));
}

#[test]
fn failed_request_keeps_nothing() {
    let (next, keep) = IpcPhase::Polling(PollTarget::CachedFiles).on_reply(Err("Invalid data received".to_string()));
    assert!(keep.is_none());
    assert!(matches!(next, IpcPhase::Polling(PollTarget::TrackedProcesses)));
}

#[test]
fn status_reply_is_kept() {
    let (next, keep) = IpcPhase::Polling(PollTarget::InternalEvents)
        .on_reply(Ok(reply(IpcCommand::SendCachedFiles(vec!["/f".to_string()]))));
    assert!(matches!(next, IpcPhase::Polling(PollTarget::CachedFiles)));
    let kept = keep.unwrap();
    assert!(matches!(&kept.command, IpcCommand::SendCachedFiles(f) if f == &vec!["/f".to_string()]));
}
