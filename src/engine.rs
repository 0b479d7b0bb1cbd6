//! The sync supervisor: the toggle, the workers in flight, and what each tick
//! starts.

use vstd::prelude::*;

verus! {

/// A change to the database's notification subscription.
#[derive(PartialEq, Eq, Structural, Debug, Clone, Copy)]
pub enum Listen {
    On,
    Off,
}

/// The two workers.
#[derive(PartialEq, Eq, Structural, Debug, Clone, Copy)]
pub enum Worker {
    Ingress,
    Egress,
}

/// The workers a tick starts.
#[derive(PartialEq, Eq, Structural, Debug, Clone, Copy)]
pub struct TickPlan {
    pub ingress: bool,
    pub egress: bool,
}

/// The supervisor's state: whether sync runs, and which workers are in flight.
#[derive(PartialEq, Eq, Structural, Debug, Clone, Copy)]
pub struct Supervisor {
    pub toggle: bool,
    pub ingress_busy: bool,
    pub egress_busy: bool,
}

impl Supervisor {
    /// Sync off, nothing in flight.
    pub fn new() -> (r: Supervisor)
        ensures
            r == (Supervisor { toggle: false, ingress_busy: false, egress_busy: false }),
    {
        Supervisor { toggle: false, ingress_busy: false, egress_busy: false }
    }

    /// Turns sync on; the egress worker needs the notification subscription.
    pub fn start(&mut self) -> (r: Listen)
        ensures
            *final(self) == (Supervisor { toggle: true, ..*old(self) }),
            r == Listen::On,
    {
        self.toggle = true;
        Listen::On
    }

    /// Turns sync off and drops the subscription; workers in flight finish
    /// at their next boundary.
    pub fn stop(&mut self) -> (r: Listen)
        ensures
            *final(self) == (Supervisor { toggle: false, ..*old(self) }),
            r == Listen::Off,
    {
        self.toggle = false;
        Listen::Off
    }

    /// Whether sync is on.
    pub fn is_running(&self) -> (r: bool)
        ensures
            r == self.toggle,
    {
        self.toggle
    }

    /// One tick: while sync is on, each worker that is not in flight is
    /// started; a worker still in flight misses the tick.
    pub fn tick(&mut self) -> (r: TickPlan)
        ensures
            r.ingress == (old(self).toggle && !old(self).ingress_busy),
            r.egress == (old(self).toggle && !old(self).egress_busy),
            final(self).toggle == old(self).toggle,
            final(self).ingress_busy == (old(self).ingress_busy || r.ingress),
            final(self).egress_busy == (old(self).egress_busy || r.egress),
    {
        let ingress = self.toggle && !self.ingress_busy;
        let egress = self.toggle && !self.egress_busy;
        if ingress {
            self.ingress_busy = true;
        }
        if egress {
            self.egress_busy = true;
        }
        TickPlan { ingress, egress }
    }

    /// A worker has completed.
    pub fn finished(&mut self, w: Worker)
        ensures
            final(self).toggle == old(self).toggle,
            final(self).ingress_busy == (old(self).ingress_busy && w != Worker::Ingress),
            final(self).egress_busy == (old(self).egress_busy && w != Worker::Egress),
    {
        match w {
            Worker::Ingress => self.ingress_busy = false,
            Worker::Egress => self.egress_busy = false,
        }
    }
}

} // verus!
