use precached_gui::clock::Timestamp;
use precached_gui::global_data::{carries_data, process_message, GlobalData};
use precached_gui::ipc::{
    InternalEvent, IpcCommand, IpcMessage, PrefetchStats, Process, Statistics, ThreadState,
    TracerEntry,
};

fn at(seconds: i64) -> Timestamp {
    Timestamp { seconds, nanoseconds: 0 }
}

fn reply(command: IpcCommand) -> IpcMessage {
    IpcMessage { datetime: at(1_000), command }
}

fn process(pid: i32, comm: &str) -> Process {
    Process { pid, comm: comm.to_string() }
}

fn event(seconds: i64, name: &str) -> InternalEvent {
    InternalEvent { datetime: at(seconds), name: name.to_string() }
}

fn comms(data: &GlobalData) -> Vec<String> {
    data.tracked_processes.iter().map(|p| p.comm.clone()).collect()
}

fn messages(data: &GlobalData) -> Vec<String> {
    data.events.iter().map(|e| e.msg.clone()).collect()
}

#[test]
fn default_is_empty() {
    let d = GlobalData::default();
    assert!(d.tracked_processes.is_empty());
    assert!(d.active_traces.is_empty());
    assert!(d.prefetch_stats.is_none());
    assert!(d.events.is_empty());
    assert!(d.cached_files.is_empty());
    assert!(d.statistics.is_empty());
}

#[test]
fn tracked_processes_are_replaced() {
    let mut d = GlobalData::default();
    process_message(&mut d, reply(IpcCommand::SendTrackedProcesses(vec![process(1, "init"), process(42, "bash")])));
    assert_eq!(d.tracked_processes.len(), 2);
    assert_eq!(d.tracked_processes[0].pid, 1);
    assert_eq!(d.tracked_processes[1].pid, 42);
    assert_eq!(comms(&d), vec!["init".to_string(), "bash".to_string()]);
    process_message(&mut d, reply(IpcCommand::SendTrackedProcesses(vec![process(7, "vim")])));
    assert_eq!(comms(&d), vec!["vim".to_string()]);
    assert_eq!(d.tracked_processes[0].pid, 7);
}

#[test]
fn in_flight_tracers_are_replaced() {
    let mut d = GlobalData::default();
    let t = TracerEntry { start_time: at(5), trace_time_expired: true, exe: "/usr/bin/ls".to_string() };
    process_message(&mut d, reply(IpcCommand::SendInFlightTracers(vec![t])));
    assert_eq!(d.active_traces.len(), 1);
    assert_eq!(d.active_traces[0].start_time, at(5));
    assert!(d.active_traces[0].trace_time_expired);
    assert_eq!(d.active_traces[0].exe, "/usr/bin/ls");
    process_message(&mut d, reply(IpcCommand::SendInFlightTracers(vec![])));
    assert!(d.active_traces.is_empty());
}

#[test]
fn prefetch_status_is_stored() {
    let mut d = GlobalData::default();
    let stats = PrefetchStats {
        datetime: at(9),
        thread_states: vec![ThreadState::Idle, ThreadState::PrefetchingFile("/lib/a.so".to_string())],
    };
    process_message(&mut d, reply(IpcCommand::SendPrefetchStatus(stats)));
    let held = d.prefetch_stats.as_ref().unwrap();
    assert_eq!(held.datetime, at(9));
    assert_eq!(held.thread_states.len(), 2);
    assert!(matches!(held.thread_states[0], ThreadState::Idle));
    assert!(matches!(&held.thread_states[1], ThreadState::PrefetchingFile(p) if p == "/lib/a.so"));
}

#[test]
fn cached_files_are_replaced() {
    let mut d = GlobalData::default();
    process_message(&mut d, reply(IpcCommand::SendCachedFiles(vec!["/a".to_string(), "/b".to_string()])));
    assert_eq!(d.cached_files, vec!["/a".to_string(), "/b".to_string()]);
    process_message(&mut d, reply(IpcCommand::SendCachedFiles(vec!["/c".to_string()])));
    assert_eq!(d.cached_files, vec!["/c".to_string()]);
}

#[test]
fn internal_events_are_appended() {
    let mut d = GlobalData::default();
    process_message(&mut d, reply(IpcCommand::SendInternalEvents(vec![event(1, "Ping"), event(2, "Startup")])));
    process_message(&mut d, reply(IpcCommand::SendInternalEvents(vec![event(3, "Shutdown")])));
    assert_eq!(messages(&d), vec!["Ping".to_string(), "Startup".to_string(), "Shutdown".to_string()]);
    assert_eq!(d.events[2].datetime, at(3));
}

#[test]
fn statistics_are_appended() {
    let mut d = GlobalData::default();
    process_message(&mut d, reply(IpcCommand::SendStatistics(vec![Statistics { datetime: at(1) }])));
    process_message(&mut d, reply(IpcCommand::SendStatistics(vec![Statistics { datetime: at(2) }, Statistics { datetime: at(3) }])));
    let stamps: Vec<Timestamp> = d.statistics.iter().map(|s| s.datetime).collect();
    assert_eq!(stamps, vec![at(1), at(2), at(3)]);
}

#[test]
fn requests_leave_data_unchanged() {
    let mut d = GlobalData::default();
    process_message(&mut d, reply(IpcCommand::SendTrackedProcesses(vec![process(1, "init")])));
    process_message(&mut d, reply(IpcCommand::SendInternalEvents(vec![event(1, "Ping")])));
    let commands = vec![
        IpcCommand::Ping,
        IpcCommand::Pong,
        IpcCommand::Connect,
        IpcCommand::ConnectedSuccessfuly,
        IpcCommand::Close,
        IpcCommand::RequestTrackedProcesses,
        IpcCommand::RequestInFlightTracers,
        IpcCommand::RequestPrefetchStatus,
        IpcCommand::RequestInternalEvents,
        IpcCommand::RequestCachedFiles,
        IpcCommand::RequestStatistics,
    ];
    for c in commands {
        process_message(&mut d, reply(c));
    }
    assert_eq!(comms(&d), vec!["init".to_string()]);
    assert_eq!(messages(&d), vec!["Ping".to_string()]);
    assert!(d.active_traces.is_empty());
    assert!(d.prefetch_stats.is_none());
    assert!(d.cached_files.is_empty());
    assert!(d.statistics.is_empty());
}

#[test]
fn reply_changes_only_its_part() {
    let mut d = GlobalData::default();
    process_message(&mut d, reply(IpcCommand::SendInternalEvents(vec![event(1, "Ping")])));
    process_message(&mut d, reply(IpcCommand::SendCachedFiles(vec!["/x".to_string()])));
    process_message(&mut d, reply(IpcCommand::SendTrackedProcesses(vec![process(3, "cat")])));
    assert_eq!(messages(&d), vec!["Ping".to_string()]);
    assert_eq!(d.cached_files, vec!["/x".to_string()]);
    assert_eq!(comms(&d), vec!["cat".to_string()]);
}

#[test]
fn last_replacement_wins() {
    let mut twice = GlobalData::default();
    process_message(&mut twice, reply(IpcCommand::SendCachedFiles(vec!["/old".to_string()])));
    process_message(&mut twice, reply(IpcCommand::SendCachedFiles(vec!["/new".to_string()])));
    let mut once = GlobalData::default();
    process_message(&mut once, reply(IpcCommand::SendCachedFiles(vec!["/new".to_string()])));
    assert_eq!(twice.cached_files, once.cached_files);
}

#[test]
fn batches_concatenate() {
    let mut split = GlobalData::default();
    process_message(&mut split, reply(IpcCommand::SendInternalEvents(vec![event(1, "a")])));
    process_message(&mut split, reply(IpcCommand::SendInternalEvents(vec![event(2, "b"), event(3, "c")])));
    let mut whole = GlobalData::default();
    process_message(&mut whole, reply(IpcCommand::SendInternalEvents(vec![event(1, "a"), event(2, "b"), event(3, "c")])));
    assert_eq!(messages(&split), messages(&whole));
}

#[test]
fn different_parts_commute() {
    let mut first = GlobalData::default();
    process_message(&mut first, reply(IpcCommand::SendTrackedProcesses(vec![process(1, "init")])));
    process_message(&mut first, reply(IpcCommand::SendCachedFiles(vec!["/f".to_string()])));
    let mut second = GlobalData::default();
    process_message(&mut second, reply(IpcCommand::SendCachedFiles(vec!["/f".to_string()])));
    process_message(&mut second, reply(IpcCommand::SendTrackedProcesses(vec![process(1, "init")])));
    assert_eq!(comms(&first), comms(&second));
    assert_eq!(first.cached_files, second.cached_files);
}

#[test]
fn logs_only_grow() {
    let mut d = GlobalData::default();
    process_message(&mut d, reply(IpcCommand::SendInternalEvents(vec![event(1, "a")])));
    process_message(&mut d, reply(IpcCommand::SendStatistics(vec![Statistics { datetime: at(4) }])));
    process_message(&mut d, reply(IpcCommand::SendInternalEvents(vec![])));
    process_message(&mut d, reply(IpcCommand::SendTrackedProcesses(vec![])));
    assert_eq!(messages(&d), vec!["a".to_string()]);
    assert_eq!(d.statistics.len(), 1);
}

#[test]
fn carries_data_tells_replies_from_requests() {
    assert!(carries_data(&IpcCommand::SendCachedFiles(vec![])));
    assert!(carries_data(&IpcCommand::SendStatistics(vec![])));
    assert!(carries_data(&IpcCommand::SendTrackedProcesses(vec![])));
    assert!(!carries_data(&IpcCommand::Connect));
    assert!(!carries_data(&IpcCommand::RequestStatistics));
    assert!(!carries_data(&IpcCommand::Pong));
}
