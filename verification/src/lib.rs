//! The data model and the decisions of precached-GUI, a graphical front end
//! of the precached daemon: the IPC messages, the state that the daemon's
//! replies build up, the polling protocol, and the rows that the overview
//! lists show.
use vstd::prelude::*;

pub mod clock;
pub mod ipc;
pub mod global_data;
pub mod globals;
pub mod polling;
pub mod overview;

verus! {
} // verus!
