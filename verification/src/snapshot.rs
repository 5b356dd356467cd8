//! Progress snapshots: the immutable status values a run emits, the
//! mathematical model of the full snapshot sequence of a run, and the
//! laws that sequence obeys (monotone progress, fixed count, exact
//! labels, terminal state).

use vstd::prelude::*;
use vstd::arithmetic::div_mod::{lemma_div_is_ordered, lemma_multiply_divide_lt};
use vstd::string::StringExecFns;

verus! {

/// Mathematical model of one progress snapshot.
#[verifier::ext_equal]
pub ghost struct SnapModel {
    pub percent: int,
    pub label: Seq<char>,
    pub running: bool,
    pub done: bool,
}

/// An immutable point-in-time status value delivered to the controller.
pub struct ProgressSnapshot {
    pub percent: u32,
    pub label: String,
    pub running: bool,
    pub done: bool,
}

impl View for ProgressSnapshot {
    type V = SnapModel;

    open spec fn view(&self) -> SnapModel {
        SnapModel {
            percent: self.percent as int,
            label: self.label@,
            running: self.running,
            done: self.done,
        }
    }
}

impl DeepView for ProgressSnapshot {
    type V = SnapModel;

    open spec fn deep_view(&self) -> SnapModel {
        self.view()
    }
}

impl Clone for ProgressSnapshot {
    fn clone(&self) -> (r: Self)
        ensures
            r@ == self@,
    {
        ProgressSnapshot {
            percent: self.percent,
            label: self.label.clone(),
            running: self.running,
            done: self.done,
        }
    }
}

/// Fractional progress before step `i` of `n` has run, in whole percent:
/// `100 * i / n`, rounded down.
pub open spec fn percent_of(i: int, n: int) -> int {
    100 * i / n
}

/// The suffix appended to a step's name while it is running.
pub open spec fn running_suffix() -> Seq<char> {
    "..."@
}

/// The label of the terminal snapshot.
pub open spec fn complete_label() -> Seq<char> {
    "Optimization complete!"@
}

/// The label shown before any run has started.
pub open spec fn ready_label() -> Seq<char> {
    "Ready for optimization"@
}

/// The `i`-th snapshot of a run over steps with the given names
/// (`0 <= i <= names.len()`): for `i < names.len()` the in-progress
/// snapshot announcing step `i`, for `i == names.len()` the terminal one.
pub open spec fn run_snapshot(names: Seq<Seq<char>>, i: int) -> SnapModel {
    if i < names.len() {
        SnapModel {
            percent: percent_of(i, names.len() as int),
            label: names[i] + running_suffix(),
            running: true,
            done: false,
        }
    } else {
        SnapModel { percent: 100, label: complete_label(), running: false, done: true }
    }
}

/// The complete, ordered sequence of snapshots one run emits.
pub open spec fn run_emissions(names: Seq<Seq<char>>) -> Seq<SnapModel> {
    Seq::new(names.len() + 1, |i: int| run_snapshot(names, i))
}

/// A run over `n` steps emits exactly `n + 1` snapshots.
pub proof fn lemma_emission_count(names: Seq<Seq<char>>)
    ensures
        run_emissions(names).len() == names.len() + 1,
{
}

/// Progress is monotone: the percent values of a run's snapshot
/// sequence are non-decreasing, and the last one is exactly 100.
pub proof fn lemma_progress_monotone(names: Seq<Seq<char>>, i: int, j: int)
    requires
        0 <= i <= j <= names.len(),
    ensures
        run_snapshot(names, i).percent <= run_snapshot(names, j).percent,
        run_snapshot(names, names.len() as int).percent == 100,
{
    let n = names.len() as int;
    if j < n {
        assert(100 * i <= 100 * j) by (nonlinear_arith)
            requires i <= j;
        lemma_div_is_ordered(100 * i, 100 * j, n);
    } else if i < n {
        lemma_percent_bounds(names, i);
    }
}

/// Every pre-terminal snapshot reports strictly less than 100 percent
/// and at least 0; only the terminal snapshot reaches 100.
pub proof fn lemma_percent_bounds(names: Seq<Seq<char>>, i: int)
    requires
        0 <= i < names.len(),
    ensures
        0 <= run_snapshot(names, i).percent < 100,
{
    let n = names.len() as int;
    assert(100 * i < n * 100) by (nonlinear_arith)
        requires 0 <= i < n;
    lemma_multiply_divide_lt(100 * i, n, 100);
    assert(0 <= 100 * i) by (nonlinear_arith)
        requires 0 <= i;
    assert(100 * i / n >= 0) by {
        vstd::arithmetic::div_mod::lemma_div_pos_is_pos(100 * i, n);
    }
}

/// Exactly the pre-terminal snapshots carry `running == true` and
/// `done == false`; the terminal snapshot carries the opposite pair.
pub proof fn lemma_run_phases(names: Seq<Seq<char>>, i: int)
    requires
        0 <= i <= names.len(),
    ensures
        i < names.len() ==> run_snapshot(names, i).running && !run_snapshot(names, i).done,
        i == names.len() ==> !run_snapshot(names, i).running && run_snapshot(names, i).done,
{
}

/// The labels of a run are, in order, each step's name followed by
/// `"..."`, and then the completion label.
pub proof fn lemma_run_labels(names: Seq<Seq<char>>, i: int)
    requires
        0 <= i <= names.len(),
    ensures
        i < names.len() ==> run_snapshot(names, i).label == names[i] + running_suffix(),
        i == names.len() ==> run_snapshot(names, i).label == complete_label(),
{
}

/// Computes `100 * i / n` without overflow and returns it as a `u32`.
fn percent_value(i: usize, n: usize) -> (r: u32)
    requires
        i < n,
    ensures
        r as int == percent_of(i as int, n as int),
        r < 100,
{
    let wide: u128 = 100u128 * (i as u128) / (n as u128);
    proof {
        assert(100 * (i as int) < (n as int) * 100) by (nonlinear_arith)
            requires 0 <= i < (n as int);
        lemma_multiply_divide_lt(100 * (i as int), n as int, 100);
        assert(0 <= 100 * (i as int)) by (nonlinear_arith)
            requires 0 <= i;
        vstd::arithmetic::div_mod::lemma_div_pos_is_pos(100 * (i as int), n as int);
    }
    wide as u32
}

/// The in-progress snapshot announcing step `i` of `n`, named `name`.
pub fn snapshot_for_step(name: &str, i: usize, n: usize) -> (r: ProgressSnapshot)
    requires
        i < n,
    ensures
        r@ == (SnapModel {
            percent: percent_of(i as int, n as int),
            label: name@ + running_suffix(),
            running: true,
            done: false,
        }),
{
    let percent = percent_value(i, n);
    let mut label = name.to_owned();
    label.append("...");
    ProgressSnapshot { percent, label, running: true, done: false }
}

/// The terminal snapshot: 100 percent, completion label, not running, done.
pub fn terminal_snapshot() -> (r: ProgressSnapshot)
    ensures
        r@ == (SnapModel {
            percent: 100,
            label: complete_label(),
            running: false,
            done: true,
        }),
{
    ProgressSnapshot {
        percent: 100,
        label: "Optimization complete!".to_owned(),
        running: false,
        done: true,
    }
}

/// The snapshot shown before any run has started: 0 percent, ready label.
pub fn initial_snapshot() -> (r: ProgressSnapshot)
    ensures
        r@ == (SnapModel { percent: 0, label: ready_label(), running: false, done: false }),
{
    ProgressSnapshot {
        percent: 0,
        label: "Ready for optimization".to_owned(),
        running: false,
        done: false,
    }
}

} // verus!
