//! The wall-clock time stamps that travel with every message and list entry.
//!
//! The library does not read the clock: reading it depends on the machine
//! (and `chrono::Utc::now` panics when the clock reads a time before 1970),
//! so the program reads it and hands the time stamp in.
use vstd::prelude::*;

verus! {

/// A point in time in UTC: whole seconds since the Unix epoch and the
/// nanoseconds past that second (more than 999,999,999 only within a leap
/// second). Nothing in the library reads inside a time stamp: it is moved
/// from a message into the data that the views show.
#[derive(Clone, Copy, Debug, PartialEq, Eq)]
pub struct Timestamp {
    pub seconds: i64,
    pub nanoseconds: u32,
}

} // verus!
