use indexmap::IndexMap;
use muhenkan_switch::commands::{
    join_lines, save_config, validate_timestamp_format, FormatError,
};
use muhenkan_switch::config::{DispatchAction, SearchEntry, TimestampConfig};
use muhenkan_switch::context::get_foreground_explorer_hwnd;
use muhenkan_switch::failure::CommandError;
use muhenkan_switch::keys::{
    check_sent, send_ctrl_key, simulate_copy, simulate_paste, tool_result, Key, KeyInput,
    KeyStroke,
};
use muhenkan_switch::platform::Platform;
use muhenkan_switch::screenshot::{run as screenshot_run, take_screenshot, Tool};
use muhenkan_switch::settings::{default_config, Config};
use muhenkan_switch::switch_app::ProcessInfo;
use muhenkan_switch::toast::{
    notify_args, text_len, toast_position, Toast, ToastAction, ToastEvent, DISMISS_TIMER_ID,
    POLL_TIMER_ID,
};
use muhenkan_switch::tray::{
    accept_click, build_tray, hides_on_close, keeps_running, menu_command, toggle_autostart,
    toggle_window, MenuCommand, MenuItem, WindowAction,
};
use muhenkan_switch::uinput::{
    pkexec_args, print_uinput_guide, setup_uinput_with_pkexec, UinputError,
};

#[test]
fn copy_and_paste_strokes() {
    let down = |key| KeyInput { key, up: false };
    let up = |key| KeyInput { key, up: true };
    assert_eq!(
        send_ctrl_key(Key::C),
        vec![down(Key::Control), down(Key::C), up(Key::C), up(Key::Control)]
    );
    assert_eq!(simulate_copy(Platform::Windows), KeyStroke::Inputs(send_ctrl_key(Key::C)));
    assert_eq!(simulate_paste(Platform::Windows), KeyStroke::Inputs(send_ctrl_key(Key::V)));
    assert_eq!(
        simulate_copy(Platform::Linux),
        KeyStroke::Tool { program: "xdotool", args: vec!["key".to_string(), "ctrl+c".to_string()] }
    );
    assert_eq!(
        simulate_paste(Platform::Linux),
        KeyStroke::Tool { program: "xdotool", args: vec!["key".to_string(), "ctrl+v".to_string()] }
    );
    assert_eq!(
        simulate_paste(Platform::MacOs),
        KeyStroke::Tool {
            program: "osascript",
            args: vec![
                "-e".to_string(),
                "tell application \"System Events\" to keystroke \"v\" using command down"
                    .to_string()
            ]
        }
    );
    assert_eq!(
        simulate_copy(Platform::MacOs),
        KeyStroke::Tool {
            program: "osascript",
            args: vec![
                "-e".to_string(),
                "tell application \"System Events\" to keystroke \"c\" using command down"
                    .to_string()
            ]
        }
    );
}

#[test]
fn stroke_results() {
    assert_eq!(check_sent(4), Ok(()));
    assert_eq!(check_sent(3), Err(CommandError::InputRejected { accepted: 3 }));
    assert_eq!(
        check_sent(0).unwrap_err().message(),
        "SendInput failed: only 0 of 4 inputs sent"
    );
    assert_eq!(
        check_sent(4294967295).unwrap_err().message(),
        "SendInput failed: only 4294967295 of 4 inputs sent"
    );
    assert_eq!(tool_result("xdotool", true), Ok(()));
    assert_eq!(
        tool_result("xdotool", false),
        Err(CommandError::ToolFailed { program: "xdotool".to_string() })
    );
}

fn process(name: &str, pid: u32) -> ProcessInfo {
    ProcessInfo { name: name.to_string(), pid }
}

#[test]
fn foreground_explorer_is_recognised() {
    let processes =
        vec![process("System", 4), process("Explorer.EXE", 800), process("code.exe", 900)];
    assert_eq!(get_foreground_explorer_hwnd(Some((0x1234, 800)), &processes), Some(0x1234));
    assert_eq!(get_foreground_explorer_hwnd(Some((0x1234, 900)), &processes), None);
    assert_eq!(get_foreground_explorer_hwnd(Some((0x1234, 901)), &processes), None);
    assert_eq!(get_foreground_explorer_hwnd(Some((0x1234, 0)), &processes), None);
    assert_eq!(get_foreground_explorer_hwnd(None, &processes), None);
    // the first entry with the identifier decides
    let doubled = vec![process("notepad.exe", 5), process("explorer.exe", 5)];
    assert_eq!(get_foreground_explorer_hwnd(Some((1, 5)), &doubled), None);
    let zero = vec![process("explorer.exe", 0)];
    assert_eq!(get_foreground_explorer_hwnd(Some((1, 0)), &zero), None);
}

#[test]
fn screenshot_tools_are_tried_in_order() {
    assert_eq!(
        take_screenshot(Platform::Linux, 0),
        Ok(Tool { program: "flameshot", arg: Some("gui") })
    );
    assert_eq!(
        take_screenshot(Platform::Linux, 1),
        Ok(Tool { program: "gnome-screenshot", arg: Some("-i") })
    );
    assert_eq!(take_screenshot(Platform::Linux, 2), Ok(Tool { program: "scrot", arg: Some("-s") }));
    let error = take_screenshot(Platform::Linux, 3).unwrap_err();
    assert_eq!(
        error.message(),
        "No screenshot tool found. Install flameshot, gnome-screenshot, or scrot."
    );
    assert!(take_screenshot(Platform::Linux, usize::MAX).is_err());
    assert_eq!(screenshot_run(Platform::Linux, 1), take_screenshot(Platform::Linux, 1));
    assert_eq!(
        take_screenshot(Platform::Windows, 0),
        Ok(Tool { program: "snippingtool", arg: None })
    );
    assert_eq!(
        take_screenshot(Platform::Windows, 1),
        Err(CommandError::ToolFailed { program: "snippingtool".to_string() })
    );
    assert_eq!(
        take_screenshot(Platform::MacOs, 0),
        Ok(Tool { program: "screencapture", arg: Some("-i") })
    );
    assert_eq!(
        take_screenshot(Platform::MacOs, 1),
        Err(CommandError::ToolFailed { program: "screencapture".to_string() })
    );
}

#[test]
fn dispatch_finds_the_bound_command() {
    let mut config = Config {
        search: IndexMap::new(),
        folders: IndexMap::new(),
        apps: IndexMap::new(),
        timestamp: TimestampConfig::default(),
    };
    config.search.insert(
        "google".to_string(),
        SearchEntry { key: Some("g".to_string()), url: "https://g/{query}".to_string() },
    );
    assert_eq!(
        muhenkan_switch::dispatch::run("g", &config),
        Ok(DispatchAction::Search { engine: "google".to_string() })
    );
    let error = muhenkan_switch::dispatch::run("x", &config).unwrap_err();
    assert_eq!(error, CommandError::Unbound { key: "x".to_string() });
    assert_eq!(error.message(), "No action bound to key 'x' in config.toml");
}

#[test]
fn timestamp_format_preview() {
    assert_eq!(
        validate_timestamp_format("%Y%m%d", "_", "before", Some("20240131")),
        Ok("20240131_FileName.txt".to_string())
    );
    assert_eq!(
        validate_timestamp_format("%Y%m%d", "-", "after", Some("20240131")),
        Ok("FileName-20240131.txt".to_string())
    );
    assert_eq!(
        validate_timestamp_format("%Y", "", "elsewhere", Some("2024")),
        Ok("2024FileName.txt".to_string())
    );
    assert_eq!(validate_timestamp_format("", "_", "before", Some("")), Err(FormatError::Empty));
    assert_eq!(validate_timestamp_format("", "_", "before", None), Err(FormatError::Empty));
    assert_eq!(validate_timestamp_format("%Q", "_", "before", None), Err(FormatError::Invalid));
    assert_eq!(FormatError::Empty.message(), "フォーマットを入力してください");
    assert_eq!(FormatError::Invalid.message(), "無効なフォーマット文字列です");
}

#[test]
fn invalid_config_is_not_saved() {
    let mut config = default_config();
    assert_eq!(save_config(&config), Ok(()));
    config.timestamp.format = String::new();
    config.timestamp.position = "middle".to_string();
    assert_eq!(
        save_config(&config),
        Err("Timestamp format cannot be empty\nTimestamp position must be \"before\" or \"after\", got \"middle\"".to_string())
    );
    assert_eq!(join_lines(&vec![]), "");
    assert_eq!(join_lines(&vec!["a".to_string()]), "a");
    assert_eq!(join_lines(&vec!["a".to_string(), "".to_string(), "c".to_string()]), "a\n\nc");
}

#[test]
fn tray_menu() {
    assert_eq!(menu_command("kanata_start"), Some(MenuCommand::StartKanata));
    assert_eq!(menu_command("kanata_stop"), Some(MenuCommand::StopKanata));
    assert_eq!(menu_command("kanata_restart"), Some(MenuCommand::RestartKanata));
    assert_eq!(menu_command("settings"), Some(MenuCommand::ShowSettings));
    assert_eq!(menu_command("open_config"), Some(MenuCommand::OpenConfig));
    assert_eq!(menu_command("open_dir"), Some(MenuCommand::OpenInstallDir));
    assert_eq!(menu_command("autostart"), Some(MenuCommand::ToggleAutostart));
    assert_eq!(menu_command("quit"), Some(MenuCommand::Quit));
    assert_eq!(menu_command("kanata_status"), None);
    assert_eq!(menu_command(""), None);

    let menu = build_tray();
    assert_eq!(menu.len(), 12);
    assert_eq!(
        menu[0],
        MenuItem::Entry { id: "kanata_status", label: "キー割当（kanata）: 停止中", enabled: false }
    );
    assert_eq!(menu[4], MenuItem::Separator);
    assert_eq!(menu[9], MenuItem::Check { id: "autostart", label: "ログイン時に自動起動" });
    assert_eq!(menu[11], MenuItem::Entry { id: "quit", label: "終了", enabled: true });
    // every entry that can be chosen has a command
    for item in &menu[1..] {
        match item {
            MenuItem::Entry { id, enabled, .. } => {
                assert!(*enabled);
                assert!(menu_command(id).is_some());
            }
            MenuItem::Check { id, .. } => assert!(menu_command(id).is_some()),
            MenuItem::Separator => {}
        }
    }
}

#[test]
fn tray_clicks_and_windows() {
    assert!(!accept_click(0));
    assert!(!accept_click(499));
    assert!(accept_click(500));
    assert!(accept_click(1000));
    assert_eq!(toggle_window(true), WindowAction::Hide);
    assert_eq!(toggle_window(false), WindowAction::ShowAndFocus);
    assert!(toggle_autostart(false));
    assert!(!toggle_autostart(true));
    assert!(hides_on_close("main"));
    assert!(!hides_on_close("help"));
    assert!(keeps_running(None));
    assert!(!keeps_running(Some(0)));
}

#[test]
fn uinput_setup() {
    let args = pkexec_args("alice");
    assert_eq!(args.len(), 3);
    assert_eq!(args[0], "bash");
    assert_eq!(args[1], "-c");
    assert_eq!(
        args[2],
        "\ngroupadd -f uinput\nusermod -aG input alice\nusermod -aG uinput alice\necho 'KERNEL==\"uinput\", MODE=\"0660\", GROUP=\"uinput\", OPTIONS+=\"static_node=uinput\"' \\\n  > /etc/udev/rules.d/99-uinput.rules\nudevadm control --reload-rules && udevadm trigger\n"
    );
    assert_eq!(setup_uinput_with_pkexec(true, true), Ok(()));
    assert_eq!(setup_uinput_with_pkexec(true, false), Err(UinputError::Cancelled));
    assert_eq!(setup_uinput_with_pkexec(false, true), Err(UinputError::NotRun));
    assert_eq!(UinputError::Cancelled.message(), "設定がキャンセルされました");
    assert_eq!(UinputError::NotRun.message(), "pkexec の実行に失敗しました");
    assert!(print_uinput_guide(true).is_empty());
    assert_eq!(
        print_uinput_guide(false),
        vec![
            "",
            "[kanata] uinput デバイスにアクセスできません。",
            "[kanata] GUI からシステム設定ダイアログが表示されます。",
            ""
        ]
    );
}

#[test]
fn toast_show_and_finish_does_not_panic() {
    let toast = Toast::show("test message");
    assert_eq!(toast.message(), "test message");
    let actions = toast.finish("done");
    assert_eq!(
        actions,
        vec![
            ToastAction::Start { id: 1, ms: 100 },
            ToastAction::Replace { stop: 1, id: 2, ms: 1500 },
            ToastAction::Close { stop: 2 },
            ToastAction::Quit,
        ]
    );
}

#[test]
fn toast_show_with_empty_message() {
    let toast = Toast::show("");
    assert_eq!(toast.finish("").len(), 4);
}

#[test]
fn toast_show_with_japanese_message() {
    let toast = Toast::show("処理中...");
    assert_eq!(toast.message(), "処理中...");
    assert_eq!(toast.finish("完了しました").last(), Some(&ToastAction::Quit));
}

#[test]
fn toast_window_follows_its_timers() {
    let mut toast = Toast::show("処理中...");
    // timers before the window exists do nothing
    assert_eq!(
        toast.wndproc(ToastEvent::Timer { id: POLL_TIMER_ID, incoming: Some("x".to_string()) }),
        ToastAction::Nothing
    );
    assert_eq!(toast.wndproc(ToastEvent::Created), ToastAction::Start { id: 1, ms: 100 });
    assert_eq!(toast.wndproc(ToastEvent::Created), ToastAction::Nothing);
    assert_eq!(
        toast.wndproc(ToastEvent::Timer { id: POLL_TIMER_ID, incoming: None }),
        ToastAction::Nothing
    );
    assert_eq!(
        toast.wndproc(ToastEvent::Timer { id: DISMISS_TIMER_ID, incoming: None }),
        ToastAction::Nothing
    );
    assert_eq!(toast.message(), "処理中...");
    assert_eq!(
        toast.wndproc(ToastEvent::Timer { id: POLL_TIMER_ID, incoming: Some("done".to_string()) }),
        ToastAction::Replace { stop: 1, id: 2, ms: 1500 }
    );
    assert_eq!(toast.message(), "done");
    // a second message is not taken any more
    assert_eq!(
        toast.wndproc(ToastEvent::Timer { id: POLL_TIMER_ID, incoming: Some("late".to_string()) }),
        ToastAction::Nothing
    );
    assert_eq!(toast.message(), "done");
    assert_eq!(
        toast.wndproc(ToastEvent::Timer { id: 7, incoming: None }),
        ToastAction::Nothing
    );
    assert_eq!(
        toast.wndproc(ToastEvent::Timer { id: DISMISS_TIMER_ID, incoming: None }),
        ToastAction::Close { stop: 2 }
    );
    assert!(!toast.closed());
    assert_eq!(toast.wndproc(ToastEvent::Destroyed), ToastAction::Quit);
    assert!(toast.closed());
    assert_eq!(toast.wndproc(ToastEvent::Destroyed), ToastAction::Nothing);
}

#[test]
fn toast_geometry_and_text() {
    assert_eq!(toast_position(100, 200), (116, 156));
    assert_eq!(toast_position(0, 0), (16, -44));
    assert_eq!(toast_position(-16, 44), (0, 0));
    assert_eq!(
        notify_args("done"),
        vec!["--app-name=muhenkan-switch", "muhenkan-switch", "done"]
    );
    assert_eq!(text_len(&vec![104, 105, 0, 120]), 2);
    assert_eq!(text_len(&vec![104, 105]), 2);
    assert_eq!(text_len(&vec![0]), 0);
    assert_eq!(text_len(&vec![]), 0);
}
