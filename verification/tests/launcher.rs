use affinity_launcher::launcher::{
    outcome, prepare, start, step, Invocation, LaunchError, LaunchState, OsCall, StepOutcome,
};
use affinity_launcher::mask::affinity_mask;
use affinity_launcher::win_path::{is_absolute_path, parent_directory};

#[test]
fn mask_small_counts() {
    assert_eq!(affinity_mask(1), 0b1);
    assert_eq!(affinity_mask(2), 0b11);
    assert_eq!(affinity_mask(3), 0b111);
    assert_eq!(affinity_mask(8), 0xff);
}

#[test]
fn mask_full_word() {
    assert_eq!(affinity_mask(63), u64::MAX >> 1);
    assert_eq!(affinity_mask(64), u64::MAX);
}

#[test]
fn mask_has_exactly_cpu_count_low_bits() {
    for cpu_count in 1..=64u32 {
        let mask = affinity_mask(cpu_count);
        assert_eq!(mask.count_ones(), cpu_count);
        if cpu_count < 64 {
            assert_eq!(mask >> cpu_count, 0);
        }
        assert_eq!(mask.trailing_ones(), cpu_count);
    }
}

#[test]
fn absolute_paths_recognised() {
    assert!(is_absolute_path("C:\\Windows\\System32\\calc.exe"));
    assert!(is_absolute_path("c:\\tools\\run.exe"));
    assert!(is_absolute_path("D:/games/doom.exe"));
    assert!(is_absolute_path("\\\\server\\share\\tool.exe"));
    assert!(is_absolute_path("\\\\?\\C:\\long\\path.exe"));
}

#[test]
fn relative_paths_rejected() {
    assert!(!is_absolute_path("notepad.exe"));
    assert!(!is_absolute_path("bin\\notepad.exe"));
    assert!(!is_absolute_path("C:notepad.exe"));
    assert!(!is_absolute_path("\\notepad.exe"));
    assert!(!is_absolute_path("./notepad.exe"));
    assert!(!is_absolute_path(""));
}

#[test]
fn parent_of_nested_path() {
    assert_eq!(
        parent_directory("C:\\Windows\\System32\\calc.exe"),
        "C:\\Windows\\System32"
    );
    assert_eq!(parent_directory("C:/tools/run.exe"), "C:/tools");
}

#[test]
fn parent_of_drive_root_file_keeps_root() {
    assert_eq!(parent_directory("C:\\calc.exe"), "C:\\");
}

#[test]
fn parent_of_unc_path() {
    assert_eq!(
        parent_directory("\\\\server\\share\\tool.exe"),
        "\\\\server\\share"
    );
}

#[test]
fn prepare_resolves_parent_when_directory_omitted() {
    let inv = Invocation {
        cpu_count: 4,
        command_path: String::from("C:\\Windows\\System32\\calc.exe"),
        working_directory: None,
    };
    let plan = prepare(&inv).unwrap();
    assert_eq!(plan.working_directory, "C:\\Windows\\System32");
}

#[test]
fn prepare_uses_supplied_directory_verbatim() {
    let inv = Invocation {
        cpu_count: 4,
        command_path: String::from("C:\\Windows\\System32\\calc.exe"),
        working_directory: Some(String::from("D:\\elsewhere")),
    };
    let plan = prepare(&inv).unwrap();
    assert_eq!(plan.working_directory, "D:\\elsewhere");
}

#[test]
fn prepare_rejects_relative_command() {
    let inv = Invocation {
        cpu_count: 1,
        command_path: String::from("notepad.exe"),
        working_directory: None,
    };
    assert_eq!(prepare(&inv).unwrap_err(), LaunchError::InvalidArgument);
}

#[test]
fn prepare_rejects_cpu_count_out_of_range() {
    for cpu_count in [0u32, 65, u32::MAX] {
        let inv = Invocation {
            cpu_count,
            command_path: String::from("C:\\Windows\\System32\\calc.exe"),
            working_directory: None,
        };
        assert_eq!(prepare(&inv).unwrap_err(), LaunchError::InvalidArgument);
    }
}

#[test]
fn scenario_successful_launch() {
    let inv = Invocation {
        cpu_count: 2,
        command_path: String::from("C:\\Windows\\System32\\calc.exe"),
        working_directory: None,
    };
    let state = start(&inv);
    match &state {
        LaunchState::Validated { plan } => {
            assert_eq!(plan.affinity_mask, 0b11);
            assert_eq!(plan.command_path, "C:\\Windows\\System32\\calc.exe");
            assert_eq!(plan.working_directory, "C:\\Windows\\System32");
        }
        other => panic!("expected Validated, got {:?}", other),
    }
    let state = step(state, StepOutcome::Succeeded);
    assert!(matches!(state, LaunchState::AffinitySet { .. }));
    let state = step(state, StepOutcome::Succeeded);
    assert!(matches!(state, LaunchState::Spawned));
    assert_eq!(outcome(&state), None);
    let state = step(state, StepOutcome::Succeeded);
    assert!(matches!(state, LaunchState::Done));
    assert_eq!(outcome(&state), Some(Ok(())));
}

#[test]
fn scenario_relative_command_never_reaches_os() {
    let inv = Invocation {
        cpu_count: 1,
        command_path: String::from("notepad.exe"),
        working_directory: None,
    };
    let state = start(&inv);
    assert!(matches!(
        state,
        LaunchState::Failed { error: LaunchError::InvalidArgument }
    ));
    assert_eq!(outcome(&state), Some(Err(LaunchError::InvalidArgument)));
    // No outcome an OS step could report leads out of the failure.
    let state = step(state, StepOutcome::Succeeded);
    assert_eq!(outcome(&state), Some(Err(LaunchError::InvalidArgument)));
}

#[test]
fn scenario_affinity_failure_stops_before_spawn() {
    let inv = Invocation {
        cpu_count: 2,
        command_path: String::from("C:\\Windows\\System32\\calc.exe"),
        working_directory: None,
    };
    let state = start(&inv);
    assert!(matches!(state, LaunchState::Validated { .. }));
    let state = step(state, StepOutcome::Failed { last_error: 87 });
    assert_eq!(
        outcome(&state),
        Some(Err(LaunchError::OsCallFailed { call: OsCall::SetAffinity, last_error: 87 }))
    );
}

#[test]
fn scenario_spawn_failure_after_affinity_set() {
    let inv = Invocation {
        cpu_count: 2,
        command_path: String::from("C:\\Windows\\System32\\calc.exe"),
        working_directory: None,
    };
    let state = start(&inv);
    let state = step(state, StepOutcome::Succeeded);
    assert!(matches!(state, LaunchState::AffinitySet { .. }));
    let state = step(state, StepOutcome::Failed { last_error: 2 });
    assert_eq!(
        outcome(&state),
        Some(Err(LaunchError::OsCallFailed { call: OsCall::CreateProcess, last_error: 2 }))
    );
}
