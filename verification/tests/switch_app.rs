use muhenkan_switch::failure::CommandError;
use muhenkan_switch::switch_app::{
    activate_window, matching_pids, needs_cmd_exe, script_names, shell_execute, ActivateAction,
    ActivateEvent, Activation, Desktop, LaunchPlan, ProcessInfo,
};

/// Carries an activation through on a machine where every tool fails and no
/// window exists.
fn drive_all_failing(mut activation: Activation) -> (Result<(), CommandError>, Vec<String>) {
    let mut log = Vec::new();
    let mut action = activation.next(ActivateEvent::Requested);
    for _ in 0..16 {
        let event = match action {
            ActivateAction::Done(result) => {
                assert!(activation.finished());
                return (result, log);
            }
            ActivateAction::Ignored => panic!("an answer was ignored"),
            ActivateAction::Run { program, args } => {
                log.push(format!("{} {}", program, args.join(" ")));
                ActivateEvent::Ran { started: true, success: false, output: String::new() }
            }
            ActivateAction::ListProcesses => ActivateEvent::Listed(Vec::new()),
            ActivateAction::FindWindow { .. } => ActivateEvent::Window(None),
            ActivateAction::Focus { .. } => ActivateEvent::Focused,
            ActivateAction::Fallback { command, warn } => {
                log.push(format!("fallback {:?} warn={}", command, warn));
                ActivateEvent::FellBack { started: false }
            }
        };
        action = activation.next(event);
    }
    panic!("the activation did not end");
}

#[test]
fn activate_window_nonexistent_no_launch_returns_ok() {
    let activation =
        activate_window("__nonexistent_app_muhenkan_test_99999__", None, Desktop::X11);
    let (result, log) = drive_all_failing(activation);
    assert!(result.is_ok());
    assert_eq!(
        log,
        vec![
            "wmctrl -x -a __nonexistent_app_muhenkan_test_99999__".to_string(),
            "xdotool search --onlyvisible --class __nonexistent_app_muhenkan_test_99999__"
                .to_string(),
            "xdotool search --onlyvisible --name __nonexistent_app_muhenkan_test_99999__"
                .to_string(),
        ]
    );
}

#[test]
fn activate_window_nonexistent_with_bad_launch_returns_ok() {
    let activation = activate_window(
        "__nonexistent_app_muhenkan_test_99999__",
        Some("/bin/__nonexistent_command_99999__"),
        Desktop::X11,
    );
    let (result, log) = drive_all_failing(activation);
    assert!(result.is_ok());
    assert_eq!(
        log.last().unwrap(),
        "fallback Some(\"/bin/__nonexistent_command_99999__\") warn=false"
    );
}

#[test]
fn wayland_warns_even_without_a_launch_command() {
    let (result, log) = drive_all_failing(activate_window("app", None, Desktop::Wayland));
    assert!(result.is_ok());
    assert_eq!(log.last().unwrap(), "fallback None warn=true");
}

#[test]
fn wmctrl_success_ends_the_activation() {
    let mut activation = activate_window("Code", Some("code"), Desktop::X11);
    assert!(matches!(
        activation.next(ActivateEvent::Requested),
        ActivateAction::Run { program: "wmctrl", .. }
    ));
    assert!(matches!(
        activation.next(ActivateEvent::Ran {
            started: true,
            success: true,
            output: String::new()
        }),
        ActivateAction::Done(Ok(()))
    ));
    assert!(activation.finished());
    assert!(matches!(
        activation.next(ActivateEvent::Requested),
        ActivateAction::Ignored
    ));
}

#[test]
fn xdotool_raises_the_first_window_found() {
    let mut activation = activate_window("Code", None, Desktop::X11);
    activation.next(ActivateEvent::Requested);
    // wmctrl is not installed
    let action = activation.next(ActivateEvent::Ran {
        started: false,
        success: false,
        output: String::new(),
    });
    match action {
        ActivateAction::Run { program, args } => {
            assert_eq!(program, "xdotool");
            assert_eq!(args, vec!["search", "--onlyvisible", "--class", "Code"]);
        }
        other => panic!("unexpected {:?}", other),
    }
    let action = activation.next(ActivateEvent::Ran {
        started: true,
        success: true,
        output: "41943044\r\n41943050\n".to_string(),
    });
    match action {
        ActivateAction::Run { program, args } => {
            assert_eq!(program, "xdotool");
            assert_eq!(args, vec!["windowactivate", "--sync", "41943044"]);
        }
        other => panic!("unexpected {:?}", other),
    }
    // raising failed: the search by name is next
    let action = activation.next(ActivateEvent::Ran {
        started: true,
        success: false,
        output: String::new(),
    });
    match action {
        ActivateAction::Run { args, .. } => {
            assert_eq!(args, vec!["search", "--onlyvisible", "--name", "Code"]);
        }
        other => panic!("unexpected {:?}", other),
    }
    // a search that prints nothing found nothing
    assert!(matches!(
        activation.next(ActivateEvent::Ran {
            started: true,
            success: true,
            output: String::new()
        }),
        ActivateAction::Done(Ok(()))
    ));
}

#[test]
fn macos_asks_the_application_to_activate() {
    let mut activation = activate_window("Code", Some("Visual Studio Code"), Desktop::MacOs);
    match activation.next(ActivateEvent::Requested) {
        ActivateAction::Run { program, args } => {
            assert_eq!(program, "osascript");
            assert_eq!(
                args,
                vec!["-e", "tell application \"Visual Studio Code\" to activate"]
            );
        }
        other => panic!("unexpected {:?}", other),
    }
    assert!(matches!(
        activation.next(ActivateEvent::Ran {
            started: true,
            success: false,
            output: String::new()
        }),
        ActivateAction::Done(Ok(()))
    ));

    let mut activation = activate_window("Code", None, Desktop::MacOs);
    match activation.next(ActivateEvent::Requested) {
        ActivateAction::Run { args, .. } => {
            assert_eq!(args[1], "tell application \"Code\" to activate");
        }
        other => panic!("unexpected {:?}", other),
    }
    match activation.next(ActivateEvent::Ran {
        started: false,
        success: false,
        output: String::new(),
    }) {
        ActivateAction::Done(Err(e)) => {
            assert_eq!(e, CommandError::ToolFailed { program: "osascript".to_string() });
            assert_eq!(e.message(), "Failed to run osascript");
        }
        other => panic!("unexpected {:?}", other),
    }
}

fn process(name: &str, pid: u32) -> ProcessInfo {
    ProcessInfo { name: name.to_string(), pid }
}

#[test]
fn windows_focuses_a_window_of_the_process() {
    let mut activation = activate_window("code", Some("code.cmd"), Desktop::Windows);
    assert!(matches!(
        activation.next(ActivateEvent::Requested),
        ActivateAction::ListProcesses
    ));
    let listed = vec![
        process("explorer.exe", 4),
        process("Code.exe", 10),
        process("code", 11),
        process("codex.exe", 12),
        process("CODE.EXE", 13),
    ];
    match activation.next(ActivateEvent::Listed(listed)) {
        ActivateAction::FindWindow { pids } => assert_eq!(pids, vec![10, 11, 13]),
        other => panic!("unexpected {:?}", other),
    }
    assert!(matches!(
        activation.next(ActivateEvent::Window(Some(0x5001))),
        ActivateAction::Focus { window: 0x5001 }
    ));
    assert!(matches!(
        activation.next(ActivateEvent::Focused),
        ActivateAction::Done(Ok(()))
    ));
}

#[test]
fn windows_launches_when_nothing_runs() {
    let mut activation = activate_window("code", Some("code.cmd"), Desktop::Windows);
    activation.next(ActivateEvent::Requested);
    match activation.next(ActivateEvent::Listed(vec![process("explorer.exe", 4)])) {
        ActivateAction::Fallback { command, warn } => {
            assert_eq!(command.as_deref(), Some("code.cmd"));
            assert!(!warn);
        }
        other => panic!("unexpected {:?}", other),
    }
    match activation.next(ActivateEvent::FellBack { started: false }) {
        ActivateAction::Done(Err(e)) => {
            assert_eq!(e.message(), "Failed to run code.cmd");
        }
        other => panic!("unexpected {:?}", other),
    }

    let mut activation = activate_window("code", None, Desktop::Windows);
    activation.next(ActivateEvent::Requested);
    assert!(matches!(
        activation.next(ActivateEvent::Listed(vec![process("code.exe", 9)])),
        ActivateAction::FindWindow { .. }
    ));
    assert!(matches!(
        activation.next(ActivateEvent::Window(None)),
        ActivateAction::Done(Ok(()))
    ));
}

#[test]
fn matching_pids_ignores_case_and_extension() {
    let listed = vec![process("Notepad.EXE", 1), process("notepad", 2), process("note", 3)];
    assert_eq!(matching_pids(&listed, "NotePad"), vec![1, 2]);
    assert_eq!(matching_pids(&listed, "notepad.exe"), vec![1]);
    assert_eq!(matching_pids(&Vec::new(), "notepad"), Vec::<u32>::new());
}

#[test]
fn scripts_need_the_command_interpreter() {
    assert!(needs_cmd_exe("build.cmd", false));
    assert!(needs_cmd_exe("BUILD.BAT", false));
    assert!(needs_cmd_exe("code", true));
    assert!(!needs_cmd_exe("code", false));
    assert!(!needs_cmd_exe("code.exe", false));
    assert!(!needs_cmd_exe("cmd", false));
    assert!(!needs_cmd_exe("", false));
    assert_eq!(script_names("code"), ("code.cmd".to_string(), "code.bat".to_string()));
}

#[test]
fn launch_commands_are_started_by_platform() {
    assert_eq!(
        shell_execute(Desktop::Windows, "code.cmd", false),
        LaunchPlan::Program {
            program: "cmd",
            args: vec![
                "/C".to_string(),
                "start".to_string(),
                "/B".to_string(),
                String::new(),
                "code.cmd".to_string()
            ],
            hidden: true
        }
    );
    assert_eq!(
        shell_execute(Desktop::Windows, "notepad", false),
        LaunchPlan::ShellOpen { file: "notepad".to_string() }
    );
    assert!(matches!(
        shell_execute(Desktop::Windows, "code", true),
        LaunchPlan::Program { program: "cmd", .. }
    ));
    for desktop in [Desktop::X11, Desktop::Wayland, Desktop::MacOs] {
        assert_eq!(
            shell_execute(desktop, "firefox --new-window", true),
            LaunchPlan::Program {
                program: "sh",
                args: vec!["-c".to_string(), "firefox --new-window".to_string()],
                hidden: false
            }
        );
    }
}
