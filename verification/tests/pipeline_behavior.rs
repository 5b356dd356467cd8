use optimizer_core::command::{
    Cmd, CommandExecutor, ErrorDetail, ExecOutcome, Invocation, OnFailure, ProbeOutcome,
    reduce_outcome,
};
use optimizer_core::controller::Controller;
use optimizer_core::pipeline::{ProgressSink, run_pipeline};
use optimizer_core::snapshot::ProgressSnapshot;
use optimizer_core::step::{Directive, Step, run_step};

/// An executor whose outcomes are chosen up front: it records every
/// launched program and answers with a scripted verdict.
struct ScriptedExecutor {
    fail_launches: bool,
    probe_success: bool,
    probe_output: String,
    launched: Vec<String>,
    paused_millis: Vec<u64>,
}

impl ScriptedExecutor {
    fn succeeding() -> Self {
        ScriptedExecutor {
            fail_launches: false,
            probe_success: true,
            probe_output: String::new(),
            launched: Vec::new(),
            paused_millis: Vec::new(),
        }
    }

    fn failing() -> Self {
        ScriptedExecutor {
            fail_launches: true,
            probe_success: false,
            probe_output: String::new(),
            launched: Vec::new(),
            paused_millis: Vec::new(),
        }
    }
}

impl CommandExecutor for ScriptedExecutor {
    fn run(&mut self, cmd: &Cmd) -> ExecOutcome {
        self.launched.push(cmd.program.clone());
        if self.fail_launches {
            ExecOutcome::LaunchFailure { message: "program not found".to_string() }
        } else {
            ExecOutcome::Exited { success: true }
        }
    }

    fn run_probe(&mut self, cmd: &Cmd) -> ProbeOutcome {
        self.launched.push(cmd.program.clone());
        if self.fail_launches {
            ProbeOutcome::LaunchFailure { message: "program not found".to_string() }
        } else {
            ProbeOutcome::Completed {
                success: self.probe_success,
                output: self.probe_output.clone(),
            }
        }
    }

    fn pause(&mut self, millis: u64) {
        self.paused_millis.push(millis);
    }
}

struct RecordingSink {
    snapshots: Vec<ProgressSnapshot>,
    failed_steps: Vec<String>,
}

impl RecordingSink {
    fn new() -> Self {
        RecordingSink { snapshots: Vec::new(), failed_steps: Vec::new() }
    }
}

impl ProgressSink for RecordingSink {
    fn emit(&mut self, snapshot: ProgressSnapshot) {
        self.snapshots.push(snapshot);
    }

    fn note_failure(&mut self, failure: &ErrorDetail) {
        self.failed_steps.push(failure.step_name.clone());
    }
}

fn strict_invoke(program: &str) -> Directive {
    Directive::Invoke(Invocation {
        cmd: Cmd { program: program.to_string(), args: Vec::new() },
        on_failure: OnFailure::Abort,
    })
}

fn tolerant_invoke(program: &str) -> Directive {
    Directive::Invoke(Invocation {
        cmd: Cmd { program: program.to_string(), args: Vec::new() },
        on_failure: OnFailure::Ignore,
    })
}

fn named_step(name: &str, directives: Vec<Directive>) -> Step {
    Step { name: name.to_string(), directives }
}

#[test]
fn ordering_of_labels_over_three_steps() {
    let steps = vec![
        named_step("A", vec![]),
        named_step("B", vec![]),
        named_step("C", vec![]),
    ];
    let mut executor = ScriptedExecutor::succeeding();
    let mut sink = RecordingSink::new();
    let emitted = run_pipeline(&steps, &mut executor, &mut sink, 0);
    let labels: Vec<String> = sink.snapshots.iter().map(|s| s.label.clone()).collect();
    assert_eq!(labels, vec!["A...", "B...", "C...", "Optimization complete!"]);
    let returned: Vec<String> = emitted.iter().map(|s| s.label.clone()).collect();
    assert_eq!(labels, returned);
}

#[test]
fn snapshot_count_is_steps_plus_one() {
    let steps = vec![
        named_step("one", vec![strict_invoke("a")]),
        named_step("two", vec![strict_invoke("b")]),
        named_step("three", vec![]),
        named_step("four", vec![]),
    ];
    let mut executor = ScriptedExecutor::succeeding();
    let mut sink = RecordingSink::new();
    let emitted = run_pipeline(&steps, &mut executor, &mut sink, 0);
    assert_eq!(emitted.len(), 5);
    assert_eq!(sink.snapshots.len(), 5);
}

#[test]
fn progress_is_monotone_and_ends_at_100() {
    let steps: Vec<Step> = (0..7).map(|i| named_step(&format!("s{}", i), vec![])).collect();
    let mut executor = ScriptedExecutor::succeeding();
    let mut sink = RecordingSink::new();
    let emitted = run_pipeline(&steps, &mut executor, &mut sink, 0);
    let mut previous = 0u32;
    for snapshot in emitted.iter() {
        assert!(snapshot.percent >= previous);
        previous = snapshot.percent;
    }
    assert_eq!(emitted.last().unwrap().percent, 100);
    for snapshot in emitted.iter().take(emitted.len() - 1) {
        assert!(snapshot.percent < 100);
        assert!(snapshot.running);
        assert!(!snapshot.done);
    }
    assert!(!emitted.last().unwrap().running);
    assert!(emitted.last().unwrap().done);
}

#[test]
fn failing_step_changes_neither_count_nor_terminal_state() {
    let steps = vec![
        named_step("StepA", vec![strict_invoke("nonexistent")]),
        named_step("StepB", vec![]),
    ];
    let mut executor = ScriptedExecutor::failing();
    let mut sink = RecordingSink::new();
    let emitted = run_pipeline(&steps, &mut executor, &mut sink, 0);
    assert_eq!(emitted.len(), 3);
    assert_eq!(emitted[0].percent, 0);
    assert_eq!(emitted[0].label, "StepA...");
    assert!(emitted[0].running);
    assert_eq!(emitted[1].percent, 50);
    assert_eq!(emitted[1].label, "StepB...");
    assert!(emitted[1].running);
    assert_eq!(emitted[2].percent, 100);
    assert_eq!(emitted[2].label, "Optimization complete!");
    assert!(emitted[2].done);
    assert_eq!(sink.failed_steps, vec!["StepA".to_string()]);
}

#[test]
fn launch_failure_maps_to_error_and_exit_status_does_not() {
    let failed = reduce_outcome(
        "definitely_not_a_real_program",
        ExecOutcome::LaunchFailure { message: "No such file or directory".to_string() },
    );
    match failed {
        Err(error) => {
            assert_eq!(error.program, "definitely_not_a_real_program");
            assert_eq!(error.message, "No such file or directory");
        }
        Ok(()) => panic!("a launch failure must be an error"),
    }
    assert!(reduce_outcome("x", ExecOutcome::Exited { success: false }).is_ok());
    assert!(reduce_outcome("x", ExecOutcome::Exited { success: true }).is_ok());
}

#[test]
fn strict_step_fails_with_its_own_name() {
    let step = named_step("Time Synchronization", vec![strict_invoke("w32tm")]);
    let mut executor = ScriptedExecutor::failing();
    let result = run_step(&step, &mut executor);
    match result {
        Err(failure) => {
            assert_eq!(failure.step_name, "Time Synchronization");
            assert_eq!(failure.message, "Execution error w32tm: program not found");
        }
        Ok(()) => panic!("a strict step with a failing launch must fail"),
    }
}

#[test]
fn best_effort_step_always_succeeds() {
    let step = named_step(
        "Registry Cleaner",
        vec![tolerant_invoke("reg"), tolerant_invoke("reg"), tolerant_invoke("reg")],
    );
    let mut executor = ScriptedExecutor::failing();
    assert!(run_step(&step, &mut executor).is_ok());
    assert_eq!(executor.launched.len(), 3);
}

#[test]
fn probe_runs_guarded_commands_only_on_marker_match() {
    let probe = Directive::Probe {
        query: Cmd { program: "Dism".to_string(), args: Vec::new() },
        marker: Some("Enabled".to_string()),
        guarded: vec![Invocation {
            cmd: Cmd { program: "Dism".to_string(), args: Vec::new() },
            on_failure: OnFailure::Abort,
        }],
    };
    let step = named_step("Verify and disable Recall", vec![probe]);

    let mut enabled = ScriptedExecutor::succeeding();
    enabled.probe_output = "Feature Name : Recall\nState : Enabled\n".to_string();
    assert!(run_step(&step, &mut enabled).is_ok());
    assert_eq!(enabled.launched.len(), 2);

    let mut disabled = ScriptedExecutor::succeeding();
    disabled.probe_output = "State : Disabled by policy".to_string();
    assert!(run_step(&step, &mut disabled).is_ok());
    assert_eq!(disabled.launched.len(), 1);
}

#[test]
fn probe_with_failed_query_skips_guarded_commands() {
    let probe = Directive::Probe {
        query: Cmd { program: "sc".to_string(), args: Vec::new() },
        marker: None,
        guarded: vec![Invocation {
            cmd: Cmd { program: "sc".to_string(), args: Vec::new() },
            on_failure: OnFailure::Abort,
        }],
    };
    let step = named_step("Service Configuration", vec![probe]);
    let mut executor = ScriptedExecutor::succeeding();
    executor.probe_success = false;
    assert!(run_step(&step, &mut executor).is_ok());
    assert_eq!(executor.launched.len(), 1);
}

#[test]
fn probe_whose_query_cannot_launch_aborts_the_step() {
    let probe = Directive::Probe {
        query: Cmd { program: "sc".to_string(), args: Vec::new() },
        marker: None,
        guarded: Vec::new(),
    };
    let step = named_step("Service Configuration", vec![probe]);
    let mut executor = ScriptedExecutor::failing();
    match run_step(&step, &mut executor) {
        Err(failure) => assert_eq!(failure.step_name, "Service Configuration"),
        Ok(()) => panic!("an unlaunchable query must abort the step"),
    }
}

#[test]
fn pause_directive_reaches_the_executor() {
    let step = named_step(
        "Restarting Explorer",
        vec![Directive::Pause { millis: 3000 }, Directive::Pause { millis: 2000 }],
    );
    let mut executor = ScriptedExecutor::succeeding();
    assert!(run_step(&step, &mut executor).is_ok());
    assert_eq!(executor.paused_millis, vec![3000, 2000]);
}

#[test]
fn full_catalog_run_emits_fifteen_snapshots_in_order() {
    let steps = optimizer_core::catalog::optimization_catalog();
    let mut executor = ScriptedExecutor::failing();
    let mut sink = RecordingSink::new();
    let emitted = run_pipeline(&steps, &mut executor, &mut sink, 0);
    assert_eq!(emitted.len(), 15);
    let labels: Vec<String> = emitted.iter().map(|s| s.label.clone()).collect();
    assert_eq!(
        labels,
        vec![
            "Energy optimizations...",
            "Service Configuration...",
            "Privacy Settings...",
            "Disabling Windows AI...",
            "Verify and disable Recall...",
            "Search Configuration...",
            "Registry Cleaner...",
            "Graphics Optimizations...",
            "Restarting Explorer...",
            "Network Configuration...",
            "TCP/IP Optimizations...",
            "Time Synchronization...",
            "Disabling Telemetry...",
            "System Cleanup...",
            "Optimization complete!",
        ]
    );
    let percents: Vec<u32> = emitted.iter().map(|s| s.percent).collect();
    assert_eq!(percents, vec![0, 7, 14, 21, 28, 35, 42, 50, 57, 64, 71, 78, 85, 92, 100]);
}

#[test]
fn controller_starts_idle() {
    let controller = Controller::new();
    assert_eq!(controller.latest.percent, 0);
    assert_eq!(controller.latest.label, "Ready for optimization");
    assert!(!controller.latest.running);
    assert!(!controller.latest.done);
}

#[test]
fn request_start_is_a_no_op_while_running() {
    let mut controller = Controller::new();
    assert!(controller.request_start());
    assert!(controller.latest.running);
    let before = controller.latest.clone();
    assert!(!controller.request_start());
    assert_eq!(controller.latest.percent, before.percent);
    assert_eq!(controller.latest.label, before.label);
    assert_eq!(controller.latest.running, before.running);
    assert_eq!(controller.latest.done, before.done);
}

#[test]
fn poll_keeps_the_most_recent_snapshot() {
    let mut controller = Controller::new();
    controller.request_start();
    let batch = vec![
        ProgressSnapshot { percent: 0, label: "A...".to_string(), running: true, done: false },
        ProgressSnapshot { percent: 50, label: "B...".to_string(), running: true, done: false },
    ];
    let seen = controller.poll(batch);
    assert_eq!(seen.percent, 50);
    assert_eq!(seen.label, "B...");
    assert!(seen.running);
}

#[test]
fn repeated_polls_after_done_return_the_terminal_snapshot() {
    let mut controller = Controller::new();
    controller.request_start();
    let terminal = ProgressSnapshot {
        percent: 100,
        label: "Optimization complete!".to_string(),
        running: false,
        done: true,
    };
    controller.poll(vec![terminal]);
    for _ in 0..5 {
        let seen = controller.poll(Vec::new());
        assert_eq!(seen.percent, 100);
        assert_eq!(seen.label, "Optimization complete!");
        assert!(!seen.running);
        assert!(seen.done);
    }
    assert!(controller.request_start());
    assert_eq!(controller.latest.percent, 0);
    assert!(controller.latest.running);
}
