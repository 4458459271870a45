//! The event counters kept by the library's tracing hooks: every hook call is an
//! event; tracker starts and socket activity are also counted on their own.
use vstd::prelude::*;

verus! {

/// Counters of the tracing hooks.
#[derive(Clone, Copy, Debug, PartialEq, Eq)]
pub struct TrackerCounters {
    /// Calls of the counting hooks so far.
    pub events: i32,
    /// Tracker starts so far.
    pub trackers: u32,
    /// Socket creations and data sends so far.
    pub sockets: u32,
}

impl TrackerCounters {
    /// The counters are consistent: every event was a tracker start or socket activity.
    pub open spec fn wf(&self) -> bool {
        &&& 0 <= self.events
        &&& self.events == self.trackers + self.sockets
    }

    /// Counters at zero.
    pub fn new() -> (counters: TrackerCounters)
        ensures
            counters.wf(),
            counters.events == 0,
            counters.trackers == 0,
            counters.sockets == 0,
    {
        TrackerCounters { events: 0, trackers: 0, sockets: 0 }
    }

    /// Records a tracker start; returns the new tracker count.
    pub fn start_tracker(&mut self) -> (trackers: u32)
        requires
            old(self).wf(),
            old(self).events < i32::MAX,
        ensures
            final(self).wf(),
            final(self).events == old(self).events + 1,
            final(self).trackers == old(self).trackers + 1,
            final(self).sockets == old(self).sockets,
            trackers == final(self).trackers,
    {
        self.events = self.events + 1;
        self.trackers = self.trackers + 1;
        self.trackers
    }

    /// Records a new socket; returns the new socket count.
    pub fn new_socket(&mut self) -> (sockets: u32)
        requires
            old(self).wf(),
            old(self).events < i32::MAX,
        ensures
            final(self).wf(),
            final(self).events == old(self).events + 1,
            final(self).trackers == old(self).trackers,
            final(self).sockets == old(self).sockets + 1,
            sockets == final(self).sockets,
    {
        self.events = self.events + 1;
        self.sockets = self.sockets + 1;
        self.sockets
    }

    /// Records a data send, counted with the socket activity; returns the new socket count.
    pub fn send_data(&mut self) -> (sockets: u32)
        requires
            old(self).wf(),
            old(self).events < i32::MAX,
        ensures
            final(self).wf(),
            final(self).events == old(self).events + 1,
            final(self).trackers == old(self).trackers,
            final(self).sockets == old(self).sockets + 1,
            sockets == final(self).sockets,
    {
        self.events = self.events + 1;
        self.sockets = self.sockets + 1;
        self.sockets
    }
}

} // verus!
