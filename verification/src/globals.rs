//! Global system state, shared between the GUI and the IPC thread.
use std::sync::Arc;
use vstd::prelude::*;
use vstd::rwlock::{RwLock, RwLockPredicate};
use crate::global_data::{
    copy_data, lemma_received_all_push, lemma_text_follows_replies, process_message, received_all,
    text_of, GlobalData, GlobalDataView,
};
use crate::ipc::{IpcCommand, IpcMessage};

verus! {

/// The condition that the shared lock keeps on the data it guards: the data
/// holds what `start` holds with some series of the daemon's replies folded
/// in (strings compared by their characters).
///
/// From the empty state this excludes no `GlobalData`: one reply of each kind
/// can set every part to any value. What the lock holds at a given moment is
/// no value that a contract here can speak of, so the contracts of `Globals`
/// say only that this condition is kept; they do not tie the data to the
/// replies applied or a copy to what the lock held.
pub struct ReachedFrom {
    pub start: GlobalDataView,
}

impl RwLockPredicate<GlobalData> for ReachedFrom {
    open spec fn inv(self, v: GlobalData) -> bool {
        exists|commands: Seq<IpcCommand>| #[trigger] text_of(received_all(self.start, commands)) == text_of(v@)
    }
}

/// Global system state
#[derive(Clone)]
pub struct Globals {
    /// Global configuration
    pub data: Arc<RwLock<GlobalData, ReachedFrom>>,
}

impl Globals {
    /// The shared data started from the empty state: whatever it holds is the
    /// empty state with some series of the daemon's replies folded in (which,
    /// as said at `ReachedFrom`, rules out no `GlobalData`).
    pub open spec fn well_formed(&self) -> bool {
        self.data.pred() == ReachedFrom { start: GlobalDataView::empty() }
    }

    /// Shared state that starts from `GlobalData::default()`, where nothing of
    /// the daemon is known yet. The contract states the lock's starting point;
    /// that the lock then holds the default data is not stated.
    pub fn new() -> (g: Globals)
        ensures
            g.well_formed(),
    {
        let initial = GlobalData::default();
        let ghost pred = ReachedFrom { start: GlobalDataView::empty() };
        assert(text_of(received_all(pred.start, Seq::empty())) == text_of(initial@));
        Globals { data: Arc::new(RwLock::new(initial, Ghost(pred))) }
    }

    /// Folds a reply of the daemon into the shared data under the write lock,
    /// as `process_message` does to data of one's own. Only the lock's
    /// condition is proved to be kept; that the data afterwards is the data
    /// before with the reply folded in is not stated, since no contract here
    /// can name what the lock holds.
    pub fn apply(&self, msg: IpcMessage) {
        let (mut data, handle) = self.data.acquire_write();
        let ghost before = data@;
        let ghost command = msg.command;
        let ghost start = self.data.pred().start;
        process_message(&mut data, msg);
        proof {
            let commands = choose|commands: Seq<IpcCommand>|
                #[trigger] text_of(received_all(start, commands)) == text_of(before);
            lemma_text_follows_replies(received_all(start, commands), before, command);
            lemma_received_all_push(start, commands, command);
            assert(text_of(received_all(start, commands.push(command))) == text_of(data@));
        }
        handle.release_write(data);
    }

    /// A copy of the shared data, taken under the read lock. The contract
    /// says only that the copy meets the lock's condition, which rules out no
    /// `GlobalData`; that the copy holds what the lock held is not stated,
    /// since no contract here can name what the lock holds.
    pub fn snapshot(&self) -> (copy: GlobalData)
        ensures
            self.data.pred().inv(copy),
            self.well_formed() ==> exists|commands: Seq<IpcCommand>|
                #[trigger] text_of(received_all(GlobalDataView::empty(), commands)) == text_of(copy@),
    {
        let handle = self.data.acquire_read();
        let copy = copy_data(handle.borrow());
        handle.release_read();
        copy
    }
}

} // verus!
