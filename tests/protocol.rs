use bootshell::cases::trivial_assertion;
use bootshell::exit::{QemuExitCode, EXIT_PORT};
use bootshell::harness::{test_runner, Action, Harness};
use bootshell::policy::{entry_plan, panic_plan, Mode};
use bootshell::report::{decimal_bytes, render_display, render_host};

/// Host channel text of a run, and the codes it wrote to the exit port.
fn host_log(trace: &[Action], names: &Vec<Vec<u8>>, diag: &[u8]) -> (String, Vec<u32>) {
    let mut text: Vec<u8> = Vec::new();
    let mut signals: Vec<u32> = Vec::new();
    for a in trace {
        text.extend(render_host(*a, names, diag));
        if let Action::Signal(code) = a {
            signals.push(code.value());
        }
    }
    (String::from_utf8(text).unwrap(), signals)
}

fn names(list: &[&str]) -> Vec<Vec<u8>> {
    list.iter().map(|s| s.as_bytes().to_vec()).collect()
}

#[test]
fn zero_cases_report_and_succeed() {
    let trace = test_runner(&[]);
    assert_eq!(
        trace,
        vec![Action::Announce(0), Action::Signal(QemuExitCode::Success), Action::Park]
    );
    let (log, signals) = host_log(&trace, &names(&[]), b"");
    assert_eq!(log, "Running 0 tests\n");
    assert_eq!(signals, vec![0x10]);
}

#[test]
fn trivial_case_passes() {
    trivial_assertion();
    let trace = test_runner(&[true]);
    assert_eq!(
        trace,
        vec![
            Action::Announce(1),
            Action::Begin(0),
            Action::Invoke(0),
            Action::Passed,
            Action::Signal(QemuExitCode::Success),
            Action::Park,
        ]
    );
    let (log, signals) = host_log(&trace, &names(&["trivial_assertion"]), b"");
    assert_eq!(log, "Running 1 tests\ntrivial_assertion...\t[ok]\n");
    assert_eq!(signals, vec![0x10]);
}

#[test]
fn first_of_two_fails_fast() {
    let trace = test_runner(&[false, true]);
    assert_eq!(
        trace,
        vec![
            Action::Announce(2),
            Action::Begin(0),
            Action::Invoke(0),
            Action::Failed,
            Action::Signal(QemuExitCode::Failure),
            Action::Park,
        ]
    );
    let (log, signals) = host_log(&trace, &names(&["first_case", "second_case"]), b"boom");
    assert_eq!(log, "Running 2 tests\nfirst_case...\t[failed]\n\nError: boom\n\n");
    assert!(!log.contains("second_case"));
    assert_eq!(signals, vec![0x11]);
}

#[test]
fn all_passing_run_marks_each_case_in_order() {
    let trace = test_runner(&[true, true, true]);
    let (log, signals) = host_log(&trace, &names(&["a", "b", "c"]), b"");
    assert_eq!(log, "Running 3 tests\na...\t[ok]\nb...\t[ok]\nc...\t[ok]\n");
    assert_eq!(log.matches("[ok]").count(), 3);
    assert_eq!(signals, vec![0x10]);
    assert_eq!(*trace.last().unwrap(), Action::Park);
}

#[test]
fn third_case_fault_stops_the_run() {
    let trace = test_runner(&[true, true, false, true, false]);
    let (log, signals) = host_log(&trace, &names(&["a", "b", "c", "d", "e"]), b"at line 7");
    assert_eq!(
        log,
        "Running 5 tests\na...\t[ok]\nb...\t[ok]\nc...\t[failed]\n\nError: at line 7\n\n"
    );
    assert_eq!(log.matches("[ok]").count(), 2);
    assert!(!trace.contains(&Action::Invoke(3)));
    assert!(!trace.contains(&Action::Invoke(4)));
    assert_eq!(signals, vec![0x11]);
}

#[test]
fn last_case_fault() {
    let trace = test_runner(&[true, false]);
    assert_eq!(trace.len(), 9);
    assert_eq!(trace[6], Action::Failed);
    assert_eq!(trace[7], Action::Signal(QemuExitCode::Failure));
}

#[test]
fn exit_codes_are_fixed_literals() {
    assert_eq!(QemuExitCode::Success.value(), 0x10);
    assert_eq!(QemuExitCode::Failure.value(), 0x11);
    assert_eq!(QemuExitCode::Success.value(), QemuExitCode::Success.value());
    assert_eq!(EXIT_PORT, 0xf4);
}

#[test]
fn host_status_of_exit_codes() {
    assert_eq!(QemuExitCode::Success.host_status(), 33);
    assert_eq!(QemuExitCode::Failure.host_status(), 35);
}

#[test]
fn harness_steps_then_stays_parked() {
    let mut h = Harness::new(1);
    let expected = [
        Action::Announce(1),
        Action::Begin(0),
        Action::Invoke(0),
        Action::Passed,
        Action::Signal(QemuExitCode::Success),
        Action::Park,
        Action::Park,
        Action::Park,
    ];
    for a in expected {
        assert_eq!(h.step(), a);
    }
}

#[test]
fn panic_policy_per_mode() {
    assert_eq!(panic_plan(Mode::Normal), vec![Action::ShowFault, Action::Park]);
    assert_eq!(
        panic_plan(Mode::Test),
        vec![Action::Failed, Action::Signal(QemuExitCode::Failure), Action::Park]
    );
}

#[test]
fn entry_point_per_mode() {
    assert_eq!(entry_plan(Mode::Normal), vec![Action::Greet, Action::Park]);
    assert_eq!(entry_plan(Mode::Test), vec![Action::Greet, Action::RunTests, Action::Park]);
}

#[test]
fn display_texts() {
    assert_eq!(render_display(Action::Greet, b""), b"Hello, world!\n".to_vec());
    assert_eq!(
        render_display(Action::ShowFault, b"panicked at src/main.rs:3:5"),
        b"panicked at src/main.rs:3:5\n".to_vec()
    );
    assert_eq!(render_display(Action::Passed, b"x"), Vec::<u8>::new());
}

#[test]
fn host_texts_of_silent_actions_are_empty() {
    let n = names(&["a"]);
    for a in [Action::Greet, Action::RunTests, Action::Invoke(0), Action::ShowFault, Action::Park] {
        assert!(render_host(a, &n, b"diag").is_empty());
    }
    assert!(render_host(Action::Signal(QemuExitCode::Failure), &n, b"diag").is_empty());
}

#[test]
fn decimal_rendering() {
    assert_eq!(decimal_bytes(0), b"0".to_vec());
    assert_eq!(decimal_bytes(7), b"7".to_vec());
    assert_eq!(decimal_bytes(10), b"10".to_vec());
    assert_eq!(decimal_bytes(1203), b"1203".to_vec());
    assert_eq!(decimal_bytes(usize::MAX), usize::MAX.to_string().into_bytes());
}

#[test]
fn announce_large_count() {
    let text = render_host(Action::Announce(4096), &names(&[]), b"");
    assert_eq!(text, b"Running 4096 tests\n".to_vec());
}
