//! Steps: named, self-contained units of configuration work, planned as
//! data, and the verified execution of one step against an arbitrary
//! command executor. A step never panics and never halts the pipeline:
//! the only failure it can surface is an `ErrorDetail`, and only where
//! its plan allows one.

use vstd::prelude::*;
use crate::command::{
    Cmd, CmdModel, CommandExecutor, ErrorDetail, ErrorDetailModel, ExecOutcome, Invocation,
    InvocationModel, OnFailure, ProbeOutcome, launch_failure_message, launch_failure_text,
    reduce_outcome,
};
use crate::text::{marker_occurs, str_contains};

verus! {

/// One element of a step's plan.
pub enum Directive {
    /// Launch a command with discarded output; `on_failure` says whether
    /// a launch failure aborts the step or is discarded.
    Invoke(Invocation),
    /// Launch `query` with captured output; run the `guarded` invocations
    /// only when the query exits successfully and, if `marker` is set,
    /// its output contains the marker. A query that could not be
    /// launched aborts the step; a query whose condition fails merely
    /// skips the guarded part.
    Probe { query: Cmd, marker: Option<String>, guarded: Vec<Invocation> },
    /// Wait the given number of milliseconds before going on.
    Pause { millis: u64 },
}

/// Mathematical model of a [`Directive`].
#[verifier::ext_equal]
pub ghost enum DirectiveModel {
    Invoke(InvocationModel),
    Probe { query: CmdModel, marker: Option<Seq<char>>, guarded: Seq<InvocationModel> },
    Pause { millis: u64 },
}

impl View for Directive {
    type V = DirectiveModel;

    open spec fn view(&self) -> DirectiveModel {
        match self {
            Directive::Invoke(inv) => DirectiveModel::Invoke(inv@),
            Directive::Probe { query, marker, guarded } => DirectiveModel::Probe {
                query: query@,
                marker: match marker {
                    Some(m) => Some(m@),
                    None => None,
                },
                guarded: guarded.deep_view(),
            },
            Directive::Pause { millis } => DirectiveModel::Pause { millis: *millis },
        }
    }
}

impl DeepView for Directive {
    type V = DirectiveModel;

    open spec fn deep_view(&self) -> DirectiveModel {
        self.view()
    }
}

/// A named, immutable unit of configuration work: an ordered plan of
/// directives.
pub struct Step {
    pub name: String,
    pub directives: Vec<Directive>,
}

/// Mathematical model of a [`Step`].
#[verifier::ext_equal]
pub ghost struct StepModel {
    pub name: Seq<char>,
    pub directives: Seq<DirectiveModel>,
}

impl View for Step {
    type V = StepModel;

    open spec fn view(&self) -> StepModel {
        StepModel { name: self.name@, directives: self.directives.deep_view() }
    }
}

impl DeepView for Step {
    type V = StepModel;

    open spec fn deep_view(&self) -> StepModel {
        self.view()
    }
}

/// Whether one directive can make its step fail: a strict invocation
/// can, a probe can (its query may fail to launch), a tolerated
/// invocation and a pause cannot.
pub open spec fn directive_can_abort(d: DirectiveModel) -> bool {
    match d {
        DirectiveModel::Invoke(inv) => inv.on_failure is Abort,
        DirectiveModel::Probe { .. } => true,
        DirectiveModel::Pause { .. } => false,
    }
}

/// Whether a step's plan allows it to fail at all. A step in which no
/// directive can abort is best-effort: it returns success whatever the
/// executor reports.
pub open spec fn step_can_abort(s: StepModel) -> bool {
    exists|k: int| 0 <= k < s.directives.len() && directive_can_abort(#[trigger] s.directives[k])
}

/// The probe condition: the query exited successfully and, when a marker
/// is required, its captured output contains the marker.
pub open spec fn probe_admits(success: bool, marker: Option<Seq<char>>, output: Seq<char>) -> bool {
    success && (marker is None || marker_occurs(output, marker->0))
}

/// Decides the probe condition for a completed query.
pub fn probe_allows(success: bool, marker: &Option<String>, output: &str) -> (r: bool)
    ensures
        r == probe_admits(success, marker.deep_view(), output@),
{
    if !success {
        false
    } else {
        match marker {
            None => true,
            Some(m) => str_contains(output, m.as_str()),
        }
    }
}

/// Turns one invocation's outcome into the step's verdict on it: a
/// launch failure under the `Abort` policy, and nothing else, yields a
/// step failure, whose message is the executor's loggable text.
pub fn absorb_outcome(step_name: &str, inv: &Invocation, outcome: ExecOutcome) -> (r: Option<
    ErrorDetail,
>)
    ensures
        r is Some <==> (outcome is LaunchFailure && inv.on_failure is Abort),
        outcome matches ExecOutcome::LaunchFailure { message } ==> (inv.on_failure is Abort
            ==> r->0@ == (ErrorDetailModel {
            step_name: step_name@,
            message: launch_failure_text(inv.cmd@.program, message@),
        })),
{
    match reduce_outcome(inv.cmd.program.as_str(), outcome) {
        Ok(()) => None,
        Err(failure) => match inv.on_failure {
            OnFailure::Abort => Some(
                ErrorDetail {
                    step_name: step_name.to_owned(),
                    message: launch_failure_message(failure.program.as_str(), failure.message.as_str()),
                },
            ),
            OnFailure::Ignore => None,
        },
    }
}

/// Executes one step's plan in order against `executor`. Whatever the
/// executor reports: the result is `Err` only if the plan allows an
/// abort, every `Err` names this step, and a best-effort step always
/// succeeds.
pub fn run_step<E: CommandExecutor>(step: &Step, executor: &mut E) -> (r: Result<(), ErrorDetail>)
    ensures
        r matches Err(failure) ==> failure@.step_name == step@.name && step_can_abort(step@),
        !step_can_abort(step@) ==> r is Ok,
{
    let n = step.directives.len();
    let mut d: usize = 0;
    while d < n
        invariant
            d <= n,
            n == step.directives.len(),
        decreases n - d,
    {
        match &step.directives[d] {
            Directive::Invoke(inv) => {
                let outcome = executor.run(&inv.cmd);
                if let Some(failure) = absorb_outcome(step.name.as_str(), inv, outcome) {
                    proof {
                        assert(directive_can_abort(step@.directives[d as int]));
                    }
                    return Err(failure);
                }
            },
            Directive::Probe { query, marker, guarded } => {
                match executor.run_probe(query) {
                    ProbeOutcome::LaunchFailure { message } => {
                        proof {
                            assert(directive_can_abort(step@.directives[d as int]));
                        }
                        return Err(
                            ErrorDetail {
                                step_name: step.name.clone(),
                                message: launch_failure_message(
                                    query.program.as_str(),
                                    message.as_str(),
                                ),
                            },
                        );
                    },
                    ProbeOutcome::Completed { success, output } => {
                        proof {
                            assert(directive_can_abort(step@.directives[d as int]));
                        }
                        if probe_allows(success, marker, output.as_str()) {
                            let m = guarded.len();
                            let mut g: usize = 0;
                            while g < m
                                invariant
                                    g <= m,
                                    m == guarded.len(),
                                    d < n,
                                    n == step.directives.len(),
                                    directive_can_abort(step@.directives[d as int]),
                                decreases m - g,
                            {
                                let outcome = executor.run(&guarded[g].cmd);
                                if let Some(failure) = absorb_outcome(
                                    step.name.as_str(),
                                    &guarded[g],
                                    outcome,
                                ) {
                                    return Err(failure);
                                }
                                g += 1;
                            }
                        }
                    },
                }
            },
            Directive::Pause { millis } => {
                executor.pause(*millis);
            },
        }
        d += 1;
    }
    Ok(())
}

} // verus!
