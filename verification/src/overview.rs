//! What the overview lists show: numbered rows of text, computed from the
//! shared data each time the view is refreshed.
use vstd::prelude::*;
use vstd::string::*;
use crate::global_data::{EventListItem, GlobalData, GlobalDataView, ProcessListItem, TracerListItem};
use crate::ipc::{InternalEvent, IpcCommand, Process, ThreadState};

verus! {

/// One row of an overview list: its number, counted from 1, and its text.
#[derive(Debug, Clone)]
pub struct ListRow {
    pub number: u32,
    pub label: String,
}

/// `rows` are numbered 1, 2, 3, ... in order and carry the texts `labels`.
pub open spec fn numbered_rows(rows: Seq<ListRow>, labels: Seq<Seq<char>>) -> bool {
    &&& rows.len() == labels.len()
    &&& forall|i: int| 0 <= i < rows.len() ==> #[trigger] rows[i].number == i + 1
    &&& forall|i: int| 0 <= i < rows.len() ==> #[trigger] rows[i].label@ == labels[i]
}

/// The text that `Debug` writes for the path spelled by `path`.
pub uninterp spec fn path_debug_text(path: Seq<char>) -> Seq<char>;

/// Formats `std::path::Path::new(path)` with `{:?}`, the `Debug` of a path
/// (quoted, with special characters escaped). Its result is named, not
/// spelled out: it depends on the path alone.
#[verifier::external_body]
fn path_debug(path: &str) -> (text: String)
    ensures
        text@ == path_debug_text(path@),
{
    format!("{:?}", std::path::Path::new(path))
}

/// The text of a prefetcher thread's state, as the derived `Debug` of the
/// state writes it: the variant's name, and for a variant with a path the
/// path's `Debug` in parentheses.
pub open spec fn thread_state_text(state: ThreadState) -> Seq<char> {
    match state {
        ThreadState::Uninitialized => "Uninitialized"@,
        ThreadState::Idle => "Idle"@,
        ThreadState::Error(p) => "Error("@ + path_debug_text(p@) + ")"@,
        ThreadState::PrefetchingFile(p) => "PrefetchingFile("@ + path_debug_text(p@) + ")"@,
        ThreadState::PrefetchingFileMetadata(p) => "PrefetchingFileMetadata("@ + path_debug_text(p@) + ")"@,
        ThreadState::UnmappingFile(p) => "UnmappingFile("@ + path_debug_text(p@) + ")"@,
    }
}

fn wrapped_path(opening: &str, path: &String) -> (text: String)
    ensures
        text@ == opening@ + path_debug_text(path@) + ")"@,
{
    let mut text = String::from_str(opening);
    let inner = path_debug(path.as_str());
    text.append(inner.as_str());
    text.append(")");
    text
}

/// The text that the prefetcher threads list shows for a thread's state.
pub fn thread_state_label(state: &ThreadState) -> (text: String)
    ensures
        text@ == thread_state_text(*state),
        *state matches ThreadState::Uninitialized ==> text@ == "Uninitialized"@,
        *state matches ThreadState::Idle ==> text@ == "Idle"@,
        *state matches ThreadState::Error(p) ==> text@ == "Error("@ + path_debug_text(p@) + ")"@,
        *state matches ThreadState::PrefetchingFile(p) ==> text@ == "PrefetchingFile("@ + path_debug_text(p@) + ")"@,
        *state matches ThreadState::PrefetchingFileMetadata(p)
            ==> text@ == "PrefetchingFileMetadata("@ + path_debug_text(p@) + ")"@,
        *state matches ThreadState::UnmappingFile(p) ==> text@ == "UnmappingFile("@ + path_debug_text(p@) + ")"@,
{
    match state {
        ThreadState::Uninitialized => String::from_str("Uninitialized"),
        ThreadState::Idle => String::from_str("Idle"),
        ThreadState::Error(p) => wrapped_path("Error(", p),
        ThreadState::PrefetchingFile(p) => wrapped_path("PrefetchingFile(", p),
        ThreadState::PrefetchingFileMetadata(p) => wrapped_path("PrefetchingFileMetadata(", p),
        ThreadState::UnmappingFile(p) => wrapped_path("UnmappingFile(", p),
    }
}

/// The texts of the rows that a fresh list shows before any data arrived.
pub open spec fn placeholder_labels() -> Seq<Seq<char>> {
    seq!["Item 1"@, "Item 2"@, "Item 3"@]
}

/// The rows with which every overview list starts: "Item 1", "Item 2" and
/// "Item 3", numbered 1 to 3.
pub fn placeholder_rows() -> (rows: Vec<ListRow>)
    ensures
        numbered_rows(rows@, placeholder_labels()),
        rows@.len() == 3,
        rows@[0].number == 1 && rows@[0].label@ == "Item 1"@,
        rows@[1].number == 2 && rows@[1].label@ == "Item 2"@,
        rows@[2].number == 3 && rows@[2].label@ == "Item 3"@,
{
    let mut rows: Vec<ListRow> = Vec::new();
    rows.push(ListRow { number: 1, label: String::from_str("Item 1") });
    rows.push(ListRow { number: 2, label: String::from_str("Item 2") });
    rows.push(ListRow { number: 3, label: String::from_str("Item 3") });
    rows
}

/// The texts of the tracked processes list: each process's command name.
pub open spec fn tracked_process_labels(data: GlobalDataView) -> Seq<Seq<char>> {
    data.tracked_processes.map_values(|p: ProcessListItem| p.comm@)
}

/// The rows of the tracked processes list: one per tracked process, in the
/// order held, showing its command name.
pub fn tracked_process_rows(data: &GlobalData) -> (rows: Vec<ListRow>)
    requires
        data.tracked_processes@.len() <= u32::MAX,
    ensures
        numbered_rows(rows@, tracked_process_labels(data@)),
        rows@.len() == data.tracked_processes@.len(),
        forall|i: int| 0 <= i < rows@.len() ==> (#[trigger] rows@[i]).number == i + 1
            && rows@[i].label@ == data.tracked_processes@[i].comm@,
{
    let entries = &data.tracked_processes;
    let n = entries.len();
    let mut rows: Vec<ListRow> = Vec::new();
    let mut i: usize = 0;
    while i < n
        invariant
            n == entries@.len(),
            n <= u32::MAX,
            i <= n,
            rows@.len() == i,
            entries == &data.tracked_processes,
            forall|j: int| 0 <= j < i ==> #[trigger] rows@[j].number == j + 1,
            forall|j: int| 0 <= j < i ==> #[trigger] rows@[j].label@ == entries@[j].comm@,
        decreases n - i,
    {
        let number = (i as u32) + 1;
        rows.push(ListRow { number, label: entries[i].comm.clone() });
        i = i + 1;
    }
    rows
}

/// The texts of the active traces list: each traced executable's path.
pub open spec fn active_trace_labels(data: GlobalDataView) -> Seq<Seq<char>> {
    data.active_traces.map_values(|t: TracerListItem| t.exe@)
}

/// The rows of the active traces list: one per in-flight trace, in the
/// order held, showing the path of the traced executable.
pub fn active_trace_rows(data: &GlobalData) -> (rows: Vec<ListRow>)
    requires
        data.active_traces@.len() <= u32::MAX,
    ensures
        numbered_rows(rows@, active_trace_labels(data@)),
        rows@.len() == data.active_traces@.len(),
        forall|i: int| 0 <= i < rows@.len() ==> (#[trigger] rows@[i]).number == i + 1
            && rows@[i].label@ == data.active_traces@[i].exe@,
{
    let entries = &data.active_traces;
    let n = entries.len();
    let mut rows: Vec<ListRow> = Vec::new();
    let mut i: usize = 0;
    while i < n
        invariant
            n == entries@.len(),
            n <= u32::MAX,
            i <= n,
            rows@.len() == i,
            entries == &data.active_traces,
            forall|j: int| 0 <= j < i ==> #[trigger] rows@[j].number == j + 1,
            forall|j: int| 0 <= j < i ==> #[trigger] rows@[j].label@ == entries@[j].exe@,
        decreases n - i,
    {
        let number = (i as u32) + 1;
        rows.push(ListRow { number, label: entries[i].exe.clone() });
        i = i + 1;
    }
    rows
}

/// The texts of the prefetcher threads list: each thread's state.
pub open spec fn prefetcher_thread_labels(data: GlobalDataView) -> Seq<Seq<char>> {
    data.prefetch_stats.unwrap().thread_states@.map_values(|s: ThreadState| thread_state_text(s))
}

/// The rows of the prefetcher threads list: one per prefetcher thread of
/// the last prefetcher status, in order, showing the thread's state. There is
/// no list to show before a prefetcher status has arrived.
pub fn prefetcher_thread_rows(data: &GlobalData) -> (rows: Vec<ListRow>)
    requires
        data.prefetch_stats is Some,
        data.prefetch_stats.unwrap().thread_states@.len() <= u32::MAX,
    ensures
        numbered_rows(rows@, prefetcher_thread_labels(data@)),
        rows@.len() == data.prefetch_stats.unwrap().thread_states@.len(),
        forall|i: int| 0 <= i < rows@.len() ==> (#[trigger] rows@[i]).number == i + 1
            && rows@[i].label@ == thread_state_text(data.prefetch_stats.unwrap().thread_states@[i]),
{
    let entries = match &data.prefetch_stats {
        Some(stats) => &stats.thread_states,
        None => {
            assert(false);
            return Vec::new();
        },
    };
    let n = entries.len();
    let mut rows: Vec<ListRow> = Vec::new();
    let mut i: usize = 0;
    while i < n
        invariant
            n == entries@.len(),
            n <= u32::MAX,
            i <= n,
            rows@.len() == i,
            entries@ == data.prefetch_stats.unwrap().thread_states@,
            forall|j: int| 0 <= j < i ==> #[trigger] rows@[j].number == j + 1,
            forall|j: int| 0 <= j < i ==> #[trigger] rows@[j].label@ == thread_state_text(entries@[j]),
        decreases n - i,
    {
        let number = (i as u32) + 1;
        rows.push(ListRow { number, label: thread_state_label(&entries[i]) });
        i = i + 1;
    }
    rows
}

/// The texts of the events list: the daemon's events, newest first.
pub open spec fn event_labels(data: GlobalDataView) -> Seq<Seq<char>> {
    data.events.reverse().map_values(|e: EventListItem| e.msg@)
}

/// The rows of the events list: one per event received, the most recent
/// first, showing the event's text.
pub fn event_rows(data: &GlobalData) -> (rows: Vec<ListRow>)
    requires
        data.events@.len() <= u32::MAX,
    ensures
        numbered_rows(rows@, event_labels(data@)),
        rows@.len() == data.events@.len(),
        forall|i: int| 0 <= i < rows@.len() ==> (#[trigger] rows@[i]).number == i + 1
            && rows@[i].label@ == data.events@[data.events@.len() - 1 - i].msg@,
{
    let entries = &data.events;
    let n = entries.len();
    let mut rows: Vec<ListRow> = Vec::new();
    let mut i: usize = 0;
    while i < n
        invariant
            n == entries@.len(),
            n <= u32::MAX,
            i <= n,
            rows@.len() == i,
            entries == &data.events,
            forall|j: int| 0 <= j < i ==> #[trigger] rows@[j].number == j + 1,
            forall|j: int| 0 <= j < i ==> #[trigger] rows@[j].label@ == entries@[n - 1 - j].msg@,
        decreases n - i,
    {
        let number = (i as u32) + 1;
        rows.push(ListRow { number, label: entries[n - 1 - i].msg.clone() });
        i = i + 1;
    }
    rows
}

/// After a batch of events arrives, the events list shows the new events
/// on top, the newest first, and below them the events shown before.
pub proof fn lemma_new_events_listed_first(d: GlobalDataView, events: Vec<InternalEvent>)
    ensures
        event_labels(d.received(IpcCommand::SendInternalEvents(events)))
            == events@.reverse().map_values(|e: InternalEvent| e.name@) + event_labels(d),
{
    let fe = |e: InternalEvent| crate::global_data::event_item(e);
    let after = d.received(IpcCommand::SendInternalEvents(events));
    assert(after.events == d.events + events@.map_values(fe));
    assert(event_labels(after) =~= events@.reverse().map_values(|e: InternalEvent| e.name@) + event_labels(d));
}

/// After a list of tracked processes arrives, the tracked processes list
/// shows exactly the reported processes' command names, in the reported
/// order, whatever it showed before.
pub proof fn lemma_process_list_follows_last_report(d: GlobalDataView, processes: Vec<Process>)
    ensures
        tracked_process_labels(d.received(IpcCommand::SendTrackedProcesses(processes)))
            == processes@.map_values(|p: Process| p.comm@),
{
    let after = d.received(IpcCommand::SendTrackedProcesses(processes));
    assert(tracked_process_labels(after) =~= processes@.map_values(|p: Process| p.comm@));
}

/// Each list has one text per entry, in the order of the entries (the
/// events in reverse order): the command name of each tracked process, the
/// path of each traced executable, the state of each prefetcher thread, the
/// text of each event.
pub proof fn lemma_one_label_per_entry(d: GlobalDataView)
    ensures
        tracked_process_labels(d).len() == d.tracked_processes.len(),
        forall|i: int| 0 <= i < d.tracked_processes.len()
            ==> #[trigger] tracked_process_labels(d)[i] == d.tracked_processes[i].comm@,
        active_trace_labels(d).len() == d.active_traces.len(),
        forall|i: int| 0 <= i < d.active_traces.len()
            ==> #[trigger] active_trace_labels(d)[i] == d.active_traces[i].exe@,
        d.prefetch_stats matches Some(st) ==> {
            &&& prefetcher_thread_labels(d).len() == st.thread_states@.len()
            &&& forall|i: int| 0 <= i < st.thread_states@.len()
                ==> #[trigger] prefetcher_thread_labels(d)[i] == thread_state_text(st.thread_states@[i])
        },
        event_labels(d).len() == d.events.len(),
        forall|i: int| 0 <= i < d.events.len()
            ==> #[trigger] event_labels(d)[i] == d.events[d.events.len() - 1 - i].msg@,
{
}

/// `numbered_rows` means what it says: as many rows as texts, row `i`
/// (from 0) numbered `i + 1` and showing text `i`.
pub proof fn lemma_numbered_rows(rows: Seq<ListRow>, labels: Seq<Seq<char>>)
    requires
        numbered_rows(rows, labels),
    ensures
        rows.len() == labels.len(),
        forall|i: int| 0 <= i < rows.len() ==> (#[trigger] rows[i]).number == i + 1 && rows[i].label@ == labels[i],
{
}

} // verus!
