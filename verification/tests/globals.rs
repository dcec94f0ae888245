use precached_gui::clock::Timestamp;
use precached_gui::globals::Globals;
use precached_gui::ipc::{InternalEvent, IpcCommand, IpcMessage, Process};

fn reply(command: IpcCommand) -> IpcMessage {
    IpcMessage { datetime: Timestamp { seconds: 1, nanoseconds: 0 }, command }
}

#[test]
fn new_globals_hold_default_data() {
    let g = Globals::new();
    let d = g.snapshot();
    assert!(d.tracked_processes.is_empty());
    assert!(d.prefetch_stats.is_none());
    assert!(d.events.is_empty());
}

#[test]
fn apply_folds_reply_into_shared_data() {
    let g = Globals::new();
    g.apply(reply(IpcCommand::SendTrackedProcesses(vec![Process { pid: 12, comm: "sshd".to_string() }])));
    g.apply(reply(IpcCommand::RequestStatistics));
    let d = g.snapshot();
    assert_eq!(d.tracked_processes.len(), 1);
    assert_eq!(d.tracked_processes[0].pid, 12);
    assert_eq!(d.tracked_processes[0].comm, "sshd");
}

#[test]
fn clones_share_the_data() {
    let g = Globals::new();
    let other = g.clone();
    other.apply(reply(IpcCommand::SendInternalEvents(vec![InternalEvent {
        datetime: Timestamp { seconds: 2, nanoseconds: 5 },
        name: "Started".to_string(),
    }])));
    let d = g.snapshot();
    assert_eq!(d.events.len(), 1);
    assert_eq!(d.events[0].msg, "Started");
    assert_eq!(d.events[0].datetime, Timestamp { seconds: 2, nanoseconds: 5 });
}

#[test]
fn snapshot_is_a_copy() {
    let g = Globals::new();
    g.apply(reply(IpcCommand::SendCachedFiles(vec!["/a".to_string()])));
    let before = g.snapshot();
    g.apply(reply(IpcCommand::SendCachedFiles(vec!["/b".to_string(), "/c".to_string()])));
    assert_eq!(before.cached_files, vec!["/a".to_string()]);
    assert_eq!(g.snapshot().cached_files, vec!["/b".to_string(), "/c".to_string()]);
}
