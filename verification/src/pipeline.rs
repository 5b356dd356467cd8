//! The pipeline runner: executes an ordered catalog of steps against a
//! command executor, announcing each step to a progress sink before it
//! runs and a terminal snapshot after the last one. The snapshot
//! sequence it produces is a function of the catalog's names alone —
//! step failures are logged to the sink and change nothing else.

use vstd::prelude::*;
use crate::command::{CommandExecutor, ErrorDetail};
use crate::snapshot::{ProgressSnapshot, run_emissions, run_snapshot, snapshot_for_step,
    terminal_snapshot};
use crate::step::{Step, StepModel, run_step};

verus! {

/// The names of a catalog's steps, in order.
pub open spec fn names_of(catalog: Seq<StepModel>) -> Seq<Seq<char>> {
    Seq::new(catalog.len(), |i: int| catalog[i].name)
}

/// Failure isolation: the snapshot stream of a run is a function of the
/// catalog's step names alone. Two catalogs with the same names — however
/// their steps' plans differ, and so whatever their steps' commands do or
/// fail to do — yield the same emissions, with the same count and the
/// same terminal snapshot.
pub proof fn lemma_failure_isolation(catalog_a: Seq<StepModel>, catalog_b: Seq<StepModel>)
    requires
        names_of(catalog_a) == names_of(catalog_b),
    ensures
        run_emissions(names_of(catalog_a)) == run_emissions(names_of(catalog_b)),
{
}

/// The receiving side of the progress channel, as the worker sees it.
/// An implementation forwards each snapshot to the controller (the real
/// one sends over an asynchronous channel, a recording one backs the
/// tests) and records step failures for diagnostics. Nothing is assumed
/// about implementations; the pipeline's contract holds for all of them.
pub trait ProgressSink {
    /// Deliver one snapshot to the observing side.
    fn emit(&mut self, snapshot: ProgressSnapshot);

    /// Record one step failure for diagnostics. Never halts the run.
    fn note_failure(&mut self, failure: &ErrorDetail);
}

/// Runs the whole catalog in order. For each step `i`, first emits the
/// in-progress snapshot announcing it, then executes the step's plan,
/// logs its failure if any, and pauses `pace_millis` milliseconds; after
/// the last step, emits the terminal snapshot. Returns the exact
/// sequence of snapshots emitted, which equals `run_emissions` of the
/// catalog's names: one per step plus a terminal one, whatever the
/// executor reported — no step outcome enters the snapshot stream.
pub fn run_pipeline<E: CommandExecutor, S: ProgressSink>(
    steps: &Vec<Step>,
    executor: &mut E,
    sink: &mut S,
    pace_millis: u64,
) -> (emitted: Vec<ProgressSnapshot>)
    ensures
        emitted.deep_view() == run_emissions(names_of(steps.deep_view())),
{
    let ghost names = names_of(steps.deep_view());
    let n = steps.len();
    let mut emitted: Vec<ProgressSnapshot> = Vec::new();
    let mut i: usize = 0;
    while i < n
        invariant
            i <= n,
            n == steps@.len(),
            names == names_of(steps.deep_view()),
            emitted@.len() == i,
            forall|k: int| 0 <= k < i ==> emitted.deep_view()[k] == run_snapshot(names, k),
        decreases n - i,
    {
        let snapshot = snapshot_for_step(steps[i].name.as_str(), i, n);
        proof {
            assert(names[i as int] == steps.deep_view()[i as int].name);
            assert(snapshot@ == run_snapshot(names, i as int));
        }
        sink.emit(snapshot.clone());
        emitted.push(snapshot);
        let result = run_step(&steps[i], executor);
        if let Err(failure) = result {
            sink.note_failure(&failure);
        }
        executor.pause(pace_millis);
        i += 1;
    }
    let last = terminal_snapshot();
    proof {
        assert(last@ == run_snapshot(names, names.len() as int));
    }
    sink.emit(last.clone());
    emitted.push(last);
    proof {
        assert(emitted.deep_view() =~= run_emissions(names));
    }
    emitted
}

} // verus!
