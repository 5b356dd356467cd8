//! The controller-owned view state: the latest snapshot the presentation
//! layer renders, the run-exclusivity rule for starting a run, and the
//! drain operation that folds newly delivered snapshots into the state.

use vstd::prelude::*;
use crate::snapshot::{ProgressSnapshot, SnapModel, initial_snapshot, ready_label};

verus! {

/// The run state the controller owns. The channel's receiving end lives
/// with the surrounding application; the controller only ever sees the
/// snapshots drained from it, in delivery order.
pub struct Controller {
    pub latest: ProgressSnapshot,
}

impl Controller {
    /// A controller in the idle state: nothing running, nothing done,
    /// zero percent, ready label.
    pub fn new() -> (c: Controller)
        ensures
            c.latest@ == (SnapModel {
                percent: 0,
                label: ready_label(),
                running: false,
                done: false,
            }),
    {
        Controller { latest: initial_snapshot() }
    }

    /// Requests a new run. While a run is active this is a no-op and
    /// returns `false`: the caller must spawn no second worker. Only
    /// when no run is active does it reset the state for a fresh run
    /// (zero percent, running, not done, label kept) and return `true`,
    /// telling the caller to start exactly one worker.
    pub fn request_start(&mut self) -> (started: bool)
        ensures
            started == !old(self).latest@.running,
            !started ==> final(self).latest@ == old(self).latest@,
            started ==> final(self).latest@ == (SnapModel {
                percent: 0,
                label: old(self).latest@.label,
                running: true,
                done: false,
            }),
    {
        if self.latest.running {
            return false;
        }
        self.latest.percent = 0;
        self.latest.running = true;
        self.latest.done = false;
        true
    }

    /// One observation tick: folds the snapshots drained from the
    /// channel since the last tick, in delivery order, into the state,
    /// keeping the most recent; then reports the current state. With
    /// nothing drained — in particular, after the terminal snapshot has
    /// arrived and the channel has closed — the state is unchanged, so
    /// repeated polls keep returning the same terminal snapshot.
    pub fn poll(&mut self, drained: Vec<ProgressSnapshot>) -> (r: ProgressSnapshot)
        ensures
            drained@.len() == 0 ==> final(self).latest@ == old(self).latest@,
            drained@.len() > 0 ==> final(self).latest@ == drained@.last()@,
            r@ == final(self).latest@,
    {
        let n = drained.len();
        let mut k: usize = 0;
        while k < n
            invariant
                k <= n,
                n == drained@.len(),
                k == 0 ==> self.latest@ == old(self).latest@,
                k > 0 ==> self.latest@ == drained@[k - 1]@,
            decreases n - k,
        {
            self.latest = drained[k].clone();
            k += 1;
        }
        self.latest.clone()
    }
}

} // verus!
