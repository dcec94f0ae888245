//! The state that the daemon's replies build up, and how each reply changes it.
use vstd::prelude::*;
use crate::clock::Timestamp;
use crate::ipc::{InternalEvent, IpcCommand, IpcMessage, PrefetchStats, Process, Statistics, ThreadState, TracerEntry};

verus! {

/// Represents a tracked process
#[derive(Debug, Clone)]
pub struct ProcessListItem {
    pub pid: libc::pid_t,
    pub comm: String,
}

/// Represents an active trace
#[derive(Debug, Clone)]
pub struct TracerListItem {
    pub start_time: Timestamp,
    pub trace_time_expired: bool,
    pub exe: String,
}

/// Represents an InternalEvent
#[derive(Debug, Clone)]
pub struct EventListItem {
    pub datetime: Timestamp,
    pub msg: String,
}

/// Represents an item in the statistics view
#[derive(Debug, Clone)]
pub struct StatisticsListItem {
    pub datetime: Timestamp,
}

/// What the GUI knows of the daemon
#[derive(Debug, Clone)]
pub struct GlobalData {
    /// Vec of tracked processes
    pub tracked_processes: Vec<ProcessListItem>,
    /// Vec of in flight traces
    pub active_traces: Vec<TracerListItem>,
    /// Prefetcher threads states
    pub prefetch_stats: Option<PrefetchStats>,
    /// Vec of daemon internal events
    pub events: Vec<EventListItem>,
    /// Vec of currently cached files
    pub cached_files: Vec<String>,
    /// Vec of statistics
    pub statistics: Vec<StatisticsListItem>,
}

/// The contents of a `GlobalData`, each list as a sequence.
#[verifier::ext_equal]
pub struct GlobalDataView {
    pub tracked_processes: Seq<ProcessListItem>,
    pub active_traces: Seq<TracerListItem>,
    pub prefetch_stats: Option<PrefetchStats>,
    pub events: Seq<EventListItem>,
    pub cached_files: Seq<String>,
    pub statistics: Seq<StatisticsListItem>,
}

impl View for GlobalData {
    type V = GlobalDataView;

    open spec fn view(&self) -> GlobalDataView {
        GlobalDataView {
            tracked_processes: self.tracked_processes@,
            active_traces: self.active_traces@,
            prefetch_stats: self.prefetch_stats,
            events: self.events@,
            cached_files: self.cached_files@,
            statistics: self.statistics@,
        }
    }
}

/// The list entry that a reported process becomes.
pub open spec fn process_item(p: Process) -> ProcessListItem {
    ProcessListItem { pid: p.pid, comm: p.comm }
}

/// The list entry that a reported in-flight trace becomes.
pub open spec fn tracer_item(t: TracerEntry) -> TracerListItem {
    TracerListItem { start_time: t.start_time, trace_time_expired: t.trace_time_expired, exe: t.exe }
}

/// The list entry that a reported daemon event becomes.
pub open spec fn event_item(e: InternalEvent) -> EventListItem {
    EventListItem { datetime: e.datetime, msg: e.name }
}

/// The list entry that a reported statistics sample becomes.
pub open spec fn statistics_item(s: Statistics) -> StatisticsListItem {
    StatisticsListItem { datetime: s.datetime }
}

impl GlobalDataView {
    /// Nothing known yet: every list empty, no prefetcher status.
    pub open spec fn empty() -> GlobalDataView {
        GlobalDataView {
            tracked_processes: Seq::empty(),
            active_traces: Seq::empty(),
            prefetch_stats: None,
            events: Seq::empty(),
            cached_files: Seq::empty(),
            statistics: Seq::empty(),
        }
    }

    /// The state after the daemon's reply `command` arrived: a list of
    /// processes, traces or cached files, or a prefetcher status, replaces the
    /// one held; events and statistics are appended to those held; every
    /// other command changes nothing.
    pub open spec fn received(self, command: IpcCommand) -> GlobalDataView {
        match command {
            IpcCommand::SendTrackedProcesses(ps) => GlobalDataView {
                tracked_processes: ps@.map_values(|p: Process| process_item(p)),
                ..self
            },
            IpcCommand::SendInFlightTracers(ts) => GlobalDataView {
                active_traces: ts@.map_values(|t: TracerEntry| tracer_item(t)),
                ..self
            },
            IpcCommand::SendPrefetchStatus(stats) => GlobalDataView {
                prefetch_stats: Some(stats),
                ..self
            },
            IpcCommand::SendCachedFiles(files) => GlobalDataView {
                cached_files: files@,
                ..self
            },
            IpcCommand::SendInternalEvents(es) => GlobalDataView {
                events: self.events + es@.map_values(|e: InternalEvent| event_item(e)),
                ..self
            },
            IpcCommand::SendStatistics(ss) => GlobalDataView {
                statistics: self.statistics + ss@.map_values(|s: Statistics| statistics_item(s)),
                ..self
            },
            _ => self,
        }
    }
}

impl Default for GlobalData {
    fn default() -> (d: GlobalData)
        ensures
            d@ == GlobalDataView::empty(),
            d.tracked_processes@.len() == 0,
            d.active_traces@.len() == 0,
            d.prefetch_stats is None,
            d.events@.len() == 0,
            d.cached_files@.len() == 0,
            d.statistics@.len() == 0,
    {
        GlobalData {
            tracked_processes: Vec::new(),
            active_traces: Vec::new(),
            prefetch_stats: None,
            events: Vec::new(),
            cached_files: Vec::new(),
            statistics: Vec::new(),
        }
    }
}

fn process_items(processes: Vec<Process>) -> (items: Vec<ProcessListItem>)
    ensures
        items@ == processes@.map_values(|p: Process| process_item(p)),
{
    let mut items: Vec<ProcessListItem> = Vec::new();
    for p in it: processes
        invariant
            items@ == it.seq().take(it.index() as int).map_values(|p: Process| process_item(p)),
    {
        items.push(ProcessListItem { pid: p.pid, comm: p.comm });
    }
    items
}

fn tracer_items(tracers: Vec<TracerEntry>) -> (items: Vec<TracerListItem>)
    ensures
        items@ == tracers@.map_values(|t: TracerEntry| tracer_item(t)),
{
    let mut items: Vec<TracerListItem> = Vec::new();
    for a in it: tracers
        invariant
            items@ == it.seq().take(it.index() as int).map_values(|t: TracerEntry| tracer_item(t)),
    {
        items.push(TracerListItem {
            start_time: a.start_time,
            trace_time_expired: a.trace_time_expired,
            exe: a.exe,
        });
    }
    items
}

fn event_items(events: Vec<InternalEvent>) -> (items: Vec<EventListItem>)
    ensures
        items@ == events@.map_values(|e: InternalEvent| event_item(e)),
{
    let mut items: Vec<EventListItem> = Vec::new();
    for e in it: events
        invariant
            items@ == it.seq().take(it.index() as int).map_values(|e: InternalEvent| event_item(e)),
    {
        items.push(EventListItem { datetime: e.datetime, msg: e.name });
    }
    items
}

fn statistics_items(stats: Vec<Statistics>) -> (items: Vec<StatisticsListItem>)
    ensures
        items@ == stats@.map_values(|s: Statistics| statistics_item(s)),
{
    let mut items: Vec<StatisticsListItem> = Vec::new();
    for e in it: stats
        invariant
            items@ == it.seq().take(it.index() as int).map_values(|s: Statistics| statistics_item(s)),
    {
        items.push(StatisticsListItem { datetime: e.datetime });
    }
    items
}

/// Folds the daemon's reply `msg` into `data`: a list of processes, traces
/// or cached files, or a prefetcher status, replaces the one held; events and
/// statistics are appended after those held; any other command leaves `data`
/// as it was.
pub fn process_message(data: &mut GlobalData, msg: IpcMessage)
    ensures
        final(data)@ == old(data)@.received(msg.command),
        msg.command matches IpcCommand::SendTrackedProcesses(ps) ==> {
            &&& final(data).tracked_processes@.len() == ps@.len()
            &&& forall|i: int| 0 <= i < ps@.len() ==> (#[trigger] final(data).tracked_processes@[i]).pid == ps@[i].pid
                && final(data).tracked_processes@[i].comm == ps@[i].comm
        },
        msg.command matches IpcCommand::SendInFlightTracers(ts) ==> {
            &&& final(data).active_traces@.len() == ts@.len()
            &&& forall|i: int| 0 <= i < ts@.len() ==> (#[trigger] final(data).active_traces@[i]).start_time == ts@[i].start_time
                && final(data).active_traces@[i].trace_time_expired == ts@[i].trace_time_expired
                && final(data).active_traces@[i].exe == ts@[i].exe
        },
        msg.command matches IpcCommand::SendPrefetchStatus(st) ==> final(data).prefetch_stats == Some(st),
        msg.command matches IpcCommand::SendCachedFiles(fs) ==> final(data).cached_files@ == fs@,
        msg.command matches IpcCommand::SendInternalEvents(es) ==> {
            &&& final(data).events@.len() == old(data).events@.len() + es@.len()
            &&& forall|i: int| 0 <= i < old(data).events@.len() ==> #[trigger] final(data).events@[i] == old(data).events@[i]
            &&& forall|i: int| 0 <= i < es@.len() ==>
                (#[trigger] final(data).events@[old(data).events@.len() + i]).datetime == es@[i].datetime
                && final(data).events@[old(data).events@.len() + i].msg == es@[i].name
        },
        msg.command matches IpcCommand::SendStatistics(ss) ==> {
            &&& final(data).statistics@.len() == old(data).statistics@.len() + ss@.len()
            &&& forall|i: int| 0 <= i < old(data).statistics@.len() ==> #[trigger] final(data).statistics@[i] == old(data).statistics@[i]
            &&& forall|i: int| 0 <= i < ss@.len() ==>
                (#[trigger] final(data).statistics@[old(data).statistics@.len() + i]).datetime == ss@[i].datetime
        },
        !(msg.command is SendTrackedProcesses) ==> final(data).tracked_processes@ == old(data).tracked_processes@,
        !(msg.command is SendInFlightTracers) ==> final(data).active_traces@ == old(data).active_traces@,
        !(msg.command is SendPrefetchStatus) ==> final(data).prefetch_stats == old(data).prefetch_stats,
        !(msg.command is SendCachedFiles) ==> final(data).cached_files@ == old(data).cached_files@,
        !(msg.command is SendInternalEvents) ==> final(data).events@ == old(data).events@,
        !(msg.command is SendStatistics) ==> final(data).statistics@ == old(data).statistics@,
{
    match msg.command {
        IpcCommand::SendTrackedProcesses(processes) => {
            data.tracked_processes = process_items(processes);
        },
        IpcCommand::SendInFlightTracers(tracers) => {
            data.active_traces = tracer_items(tracers);
        },
        IpcCommand::SendPrefetchStatus(stats) => {
            data.prefetch_stats = Some(stats);
        },
        IpcCommand::SendCachedFiles(files) => {
            data.cached_files = files;
        },
        IpcCommand::SendInternalEvents(events) => {
            let mut tmp = event_items(events);
            data.events.append(&mut tmp);
        },
        IpcCommand::SendStatistics(stats) => {
            let mut tmp = statistics_items(stats);
            data.statistics.append(&mut tmp);
        },
        _ => {},
    }
}

/// The part of the data that a reply of the daemon updates: 0 tracked
/// processes, 1 active traces, 2 prefetcher status, 3 cached files, 4 events,
/// 5 statistics; `None` for a command that carries no data.
pub open spec fn updated_part(command: IpcCommand) -> Option<int> {
    match command {
        IpcCommand::SendTrackedProcesses(_) => Some(0),
        IpcCommand::SendInFlightTracers(_) => Some(1),
        IpcCommand::SendPrefetchStatus(_) => Some(2),
        IpcCommand::SendCachedFiles(_) => Some(3),
        IpcCommand::SendInternalEvents(_) => Some(4),
        IpcCommand::SendStatistics(_) => Some(5),
        _ => None,
    }
}

/// Whether a command is a reply that carries data for the GUI (a command
/// that `process_message` folds into the data, rather than one it leaves
/// aside).
pub fn carries_data(command: &IpcCommand) -> (b: bool)
    ensures
        b == (updated_part(*command) is Some),
{
    match command {
        IpcCommand::SendTrackedProcesses(_) => true,
        IpcCommand::SendInFlightTracers(_) => true,
        IpcCommand::SendPrefetchStatus(_) => true,
        IpcCommand::SendCachedFiles(_) => true,
        IpcCommand::SendInternalEvents(_) => true,
        IpcCommand::SendStatistics(_) => true,
        _ => false,
    }
}

/// A reply replaces what was held (rather than adding to it): tracked
/// processes, active traces, prefetcher status and cached files.
pub open spec fn replaces_part(command: IpcCommand) -> bool {
    match updated_part(command) {
        Some(k) => k <= 3,
        None => false,
    }
}

/// A command that carries no data (a request, a ping, a connection
/// handshake) leaves the data as it was.
pub proof fn lemma_dataless_commands_change_nothing(d: GlobalDataView, c: IpcCommand)
    requires
        updated_part(c) is None,
    ensures
        d.received(c) == d,
{
}

/// What each reply does, entry by entry: a list of processes or of traces
/// becomes exactly the reported entries, in the reported order; a prefetcher
/// status is held as reported; the cached files become exactly the reported
/// paths; events and statistics keep every entry held and gain the reported
/// ones after them, in order.
pub proof fn lemma_reply_effects(d: GlobalDataView, c: IpcCommand)
    ensures
        c matches IpcCommand::SendTrackedProcesses(ps) ==> {
            &&& d.received(c).tracked_processes.len() == ps@.len()
            &&& forall|i: int| 0 <= i < ps@.len() ==> (#[trigger] d.received(c).tracked_processes[i]).pid == ps@[i].pid
                && d.received(c).tracked_processes[i].comm == ps@[i].comm
        },
        c matches IpcCommand::SendInFlightTracers(ts) ==> {
            &&& d.received(c).active_traces.len() == ts@.len()
            &&& forall|i: int| 0 <= i < ts@.len() ==> (#[trigger] d.received(c).active_traces[i]).start_time == ts@[i].start_time
                && d.received(c).active_traces[i].trace_time_expired == ts@[i].trace_time_expired
                && d.received(c).active_traces[i].exe == ts@[i].exe
        },
        c matches IpcCommand::SendPrefetchStatus(st) ==> d.received(c).prefetch_stats == Some(st),
        c matches IpcCommand::SendCachedFiles(fs) ==> d.received(c).cached_files == fs@,
        c matches IpcCommand::SendInternalEvents(es) ==> {
            &&& d.received(c).events.len() == d.events.len() + es@.len()
            &&& forall|i: int| 0 <= i < d.events.len() ==> #[trigger] d.received(c).events[i] == d.events[i]
            &&& forall|i: int| 0 <= i < es@.len() ==>
                (#[trigger] d.received(c).events[d.events.len() + i]).datetime == es@[i].datetime
                && d.received(c).events[d.events.len() + i].msg == es@[i].name
        },
        c matches IpcCommand::SendStatistics(ss) ==> {
            &&& d.received(c).statistics.len() == d.statistics.len() + ss@.len()
            &&& forall|i: int| 0 <= i < d.statistics.len() ==> #[trigger] d.received(c).statistics[i] == d.statistics[i]
            &&& forall|i: int| 0 <= i < ss@.len() ==>
                (#[trigger] d.received(c).statistics[d.statistics.len() + i]).datetime == ss@[i].datetime
        },
{
}

/// A reply changes only the part it carries: every other part keeps what it held.
pub proof fn lemma_reply_changes_only_its_part(d: GlobalDataView, c: IpcCommand)
    ensures
        updated_part(c) != Some(0int) ==> d.received(c).tracked_processes == d.tracked_processes,
        updated_part(c) != Some(1int) ==> d.received(c).active_traces == d.active_traces,
        updated_part(c) != Some(2int) ==> d.received(c).prefetch_stats == d.prefetch_stats,
        updated_part(c) != Some(3int) ==> d.received(c).cached_files == d.cached_files,
        updated_part(c) != Some(4int) ==> d.received(c).events == d.events,
        updated_part(c) != Some(5int) ==> d.received(c).statistics == d.statistics,
{
}

/// The event log and the statistics only grow: whatever reply arrives, the
/// entries held before stay, unchanged and in their order, at the front.
pub proof fn lemma_logs_only_grow(d: GlobalDataView, c: IpcCommand)
    ensures
        d.events.is_prefix_of(d.received(c).events),
        d.statistics.is_prefix_of(d.received(c).statistics),
{
}

/// For the parts that a reply replaces, the last reply wins: after two
/// replies of the same kind, the data is as if only the second had come.
/// Receiving the same such reply twice is the same as receiving it once.
pub proof fn lemma_last_replacement_wins(d: GlobalDataView, c1: IpcCommand, c2: IpcCommand)
    requires
        replaces_part(c2),
        updated_part(c1) == updated_part(c2),
    ensures
        d.received(c1).received(c2) == d.received(c2),
{
    assert(d.received(c1).received(c2) =~= d.received(c2));
}

/// Two batches of events received one after the other leave the same data
/// as one batch that holds both in that order; likewise for statistics.
pub proof fn lemma_batches_concatenate(
    d: GlobalDataView,
    events1: Vec<InternalEvent>,
    events2: Vec<InternalEvent>,
    events: Vec<InternalEvent>,
    stats1: Vec<Statistics>,
    stats2: Vec<Statistics>,
    stats: Vec<Statistics>,
)
    requires
        events@ == events1@ + events2@,
        stats@ == stats1@ + stats2@,
    ensures
        d.received(IpcCommand::SendInternalEvents(events1)).received(IpcCommand::SendInternalEvents(events2))
            == d.received(IpcCommand::SendInternalEvents(events)),
        d.received(IpcCommand::SendStatistics(stats1)).received(IpcCommand::SendStatistics(stats2))
            == d.received(IpcCommand::SendStatistics(stats)),
{
    let fe = |e: InternalEvent| event_item(e);
    let fs = |s: Statistics| statistics_item(s);
    assert(events@.map_values(fe) =~= events1@.map_values(fe) + events2@.map_values(fe));
    assert(stats@.map_values(fs) =~= stats1@.map_values(fs) + stats2@.map_values(fs));
    assert(d.events + events1@.map_values(fe) + events2@.map_values(fe)
        =~= d.events + (events1@.map_values(fe) + events2@.map_values(fe)));
    assert(d.statistics + stats1@.map_values(fs) + stats2@.map_values(fs)
        =~= d.statistics + (stats1@.map_values(fs) + stats2@.map_values(fs)));
    assert(d.received(IpcCommand::SendInternalEvents(events1)).received(IpcCommand::SendInternalEvents(events2))
        =~= d.received(IpcCommand::SendInternalEvents(events)));
    assert(d.received(IpcCommand::SendStatistics(stats1)).received(IpcCommand::SendStatistics(stats2))
        =~= d.received(IpcCommand::SendStatistics(stats)));
}

/// Replies that update different parts may arrive in either order: the
/// data that results is the same.
pub proof fn lemma_different_parts_commute(d: GlobalDataView, c1: IpcCommand, c2: IpcCommand)
    requires
        updated_part(c1) != updated_part(c2) || updated_part(c1) is None,
    ensures
        d.received(c1).received(c2) == d.received(c2).received(c1),
{
    assert(d.received(c1).received(c2) =~= d.received(c2).received(c1));
}

/// The state after the replies `commands` arrived one after the other.
pub open spec fn received_all(d: GlobalDataView, commands: Seq<IpcCommand>) -> GlobalDataView
    decreases commands.len(),
{
    if commands.len() == 0 {
        d
    } else {
        received_all(d, commands.drop_last()).received(commands.last())
    }
}

/// One more reply after a series of replies.
pub proof fn lemma_received_all_push(d: GlobalDataView, commands: Seq<IpcCommand>, c: IpcCommand)
    ensures
        received_all(d, commands.push(c)) == received_all(d, commands).received(c),
{
    assert(commands.push(c).drop_last() =~= commands);
}

/// A thread's state as a tag (0 to 5 in the order of the variants) and the
/// characters of its path (empty for a state without a path).
pub open spec fn thread_state_parts(s: ThreadState) -> (int, Seq<char>) {
    match s {
        ThreadState::Uninitialized => (0, Seq::empty()),
        ThreadState::Idle => (1, Seq::empty()),
        ThreadState::Error(p) => (2, p@),
        ThreadState::PrefetchingFile(p) => (3, p@),
        ThreadState::PrefetchingFileMetadata(p) => (4, p@),
        ThreadState::UnmappingFile(p) => (5, p@),
    }
}

/// A prefetcher status with each path taken as its characters.
pub open spec fn prefetch_text(s: PrefetchStats) -> (Timestamp, Seq<(int, Seq<char>)>) {
    (s.datetime, s.thread_states@.map_values(|t: ThreadState| thread_state_parts(t)))
}

/// A tracked process with its command name taken as its characters.
pub open spec fn process_text(p: ProcessListItem) -> (libc::pid_t, Seq<char>) {
    (p.pid, p.comm@)
}

/// An active trace with its path taken as its characters.
pub open spec fn tracer_text(t: TracerListItem) -> (Timestamp, bool, Seq<char>) {
    (t.start_time, t.trace_time_expired, t.exe@)
}

/// An event with its text taken as its characters.
pub open spec fn event_text(e: EventListItem) -> (Timestamp, Seq<char>) {
    (e.datetime, e.msg@)
}

/// What a `GlobalData` holds, with every string taken as its characters: two
/// values with the same text hold the same information.
#[verifier::ext_equal]
pub struct GlobalDataText {
    pub tracked_processes: Seq<(libc::pid_t, Seq<char>)>,
    pub active_traces: Seq<(Timestamp, bool, Seq<char>)>,
    pub prefetch_stats: Option<(Timestamp, Seq<(int, Seq<char>)>)>,
    pub events: Seq<(Timestamp, Seq<char>)>,
    pub cached_files: Seq<Seq<char>>,
    pub statistics: Seq<StatisticsListItem>,
}

/// The text of a state.
pub open spec fn text_of(d: GlobalDataView) -> GlobalDataText {
    GlobalDataText {
        tracked_processes: d.tracked_processes.map_values(|p: ProcessListItem| process_text(p)),
        active_traces: d.active_traces.map_values(|t: TracerListItem| tracer_text(t)),
        prefetch_stats: match d.prefetch_stats {
            Some(s) => Some(prefetch_text(s)),
            None => None,
        },
        events: d.events.map_values(|e: EventListItem| event_text(e)),
        cached_files: d.cached_files.map_values(|f: String| f@),
        statistics: d.statistics,
    }
}

/// States of the same text stay of the same text when the same reply
/// arrives at both.
pub proof fn lemma_text_follows_replies(a: GlobalDataView, b: GlobalDataView, c: IpcCommand)
    requires
        text_of(a) == text_of(b),
    ensures
        text_of(a.received(c)) == text_of(b.received(c)),
{
    let ta = text_of(a);
    let tb = text_of(b);
    match c {
        IpcCommand::SendInternalEvents(es) => {
            let m = es@.map_values(|e: InternalEvent| event_item(e));
            let fe = |e: EventListItem| event_text(e);
            assert((a.events + m).map_values(fe) =~= a.events.map_values(fe) + m.map_values(fe));
            assert((b.events + m).map_values(fe) =~= b.events.map_values(fe) + m.map_values(fe));
            assert(text_of(a.received(c)) =~= text_of(b.received(c)));
        },
        IpcCommand::SendStatistics(ss) => {
            assert(text_of(a.received(c)) =~= text_of(b.received(c)));
        },
        _ => {
            assert(text_of(a.received(c)) =~= text_of(b.received(c)));
        },
    }
}

fn copy_thread_state(s: &ThreadState) -> (r: ThreadState)
    ensures
        thread_state_parts(r) == thread_state_parts(*s),
{
    match s {
        ThreadState::Uninitialized => ThreadState::Uninitialized,
        ThreadState::Idle => ThreadState::Idle,
        ThreadState::Error(p) => ThreadState::Error(p.clone()),
        ThreadState::PrefetchingFile(p) => ThreadState::PrefetchingFile(p.clone()),
        ThreadState::PrefetchingFileMetadata(p) => ThreadState::PrefetchingFileMetadata(p.clone()),
        ThreadState::UnmappingFile(p) => ThreadState::UnmappingFile(p.clone()),
    }
}

fn copy_prefetch_stats(s: &PrefetchStats) -> (r: PrefetchStats)
    ensures
        prefetch_text(r) == prefetch_text(*s),
{
    let src = &s.thread_states;
    let n = src.len();
    let mut out: Vec<ThreadState> = Vec::new();
    let mut i: usize = 0;
    while i < n
        invariant
            n == src@.len(),
            i <= n,
            out@.len() == i,
            forall|j: int| 0 <= j < i ==> #[trigger] thread_state_parts(out@[j]) == thread_state_parts(src@[j]),
        decreases n - i,
    {
        out.push(copy_thread_state(&src[i]));
        i = i + 1;
    }
    let r = PrefetchStats { datetime: s.datetime, thread_states: out };
    assert(prefetch_text(r).1 =~= prefetch_text(*s).1);
    r
}

/// A copy of `data` that holds the same text.
pub(crate) fn copy_data(data: &GlobalData) -> (r: GlobalData)
    ensures
        text_of(r@) == text_of(data@),
{
    let mut tracked_processes: Vec<ProcessListItem> = Vec::new();
    let mut i: usize = 0;
    while i < data.tracked_processes.len()
        invariant
            i <= data.tracked_processes@.len(),
            tracked_processes@.len() == i,
            forall|j: int| 0 <= j < i ==> #[trigger] process_text(tracked_processes@[j])
                == process_text(data.tracked_processes@[j]),
        decreases data.tracked_processes@.len() - i,
    {
        let p = &data.tracked_processes[i];
        tracked_processes.push(ProcessListItem { pid: p.pid, comm: p.comm.clone() });
        i = i + 1;
    }
    let mut active_traces: Vec<TracerListItem> = Vec::new();
    let mut i: usize = 0;
    while i < data.active_traces.len()
        invariant
            i <= data.active_traces@.len(),
            active_traces@.len() == i,
            forall|j: int| 0 <= j < i ==> #[trigger] tracer_text(active_traces@[j])
                == tracer_text(data.active_traces@[j]),
        decreases data.active_traces@.len() - i,
    {
        let t = &data.active_traces[i];
        active_traces.push(TracerListItem {
            start_time: t.start_time,
            trace_time_expired: t.trace_time_expired,
            exe: t.exe.clone(),
        });
        i = i + 1;
    }
    let prefetch_stats = match &data.prefetch_stats {
        Some(s) => Some(copy_prefetch_stats(s)),
        None => None,
    };
    let mut events: Vec<EventListItem> = Vec::new();
    let mut i: usize = 0;
    while i < data.events.len()
        invariant
            i <= data.events@.len(),
            events@.len() == i,
            forall|j: int| 0 <= j < i ==> #[trigger] event_text(events@[j]) == event_text(data.events@[j]),
        decreases data.events@.len() - i,
    {
        let e = &data.events[i];
        events.push(EventListItem { datetime: e.datetime, msg: e.msg.clone() });
        i = i + 1;
    }
    let mut cached_files: Vec<String> = Vec::new();
    let mut i: usize = 0;
    while i < data.cached_files.len()
        invariant
            i <= data.cached_files@.len(),
            cached_files@.len() == i,
            forall|j: int| 0 <= j < i ==> #[trigger] cached_files@[j]@ == data.cached_files@[j]@,
        decreases data.cached_files@.len() - i,
    {
        cached_files.push(data.cached_files[i].clone());
        i = i + 1;
    }
    let mut statistics: Vec<StatisticsListItem> = Vec::new();
    let mut i: usize = 0;
    while i < data.statistics.len()
        invariant
            i <= data.statistics@.len(),
            statistics@.len() == i,
            forall|j: int| 0 <= j < i ==> #[trigger] statistics@[j] == data.statistics@[j],
        decreases data.statistics@.len() - i,
    {
        statistics.push(StatisticsListItem { datetime: data.statistics[i].datetime });
        i = i + 1;
    }
    let r = GlobalData { tracked_processes, active_traces, prefetch_stats, events, cached_files, statistics };
    assert(text_of(r@) =~= text_of(data@));
    r
}

} // verus!
