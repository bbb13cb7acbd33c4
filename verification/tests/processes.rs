use muhenkan_switch::processes::{
    get_processes_impl, get_running_processes, lines, parse_line, parse_number, parse_ps,
};
use muhenkan_switch::switch_app::ProcessInfo;

fn process(name: &str, pid: u32) -> ProcessInfo {
    ProcessInfo { name: name.to_string(), pid }
}

#[test]
fn lines_are_split_like_the_standard_library_does() {
    for text in
        ["", "a", "a\n", "a\nb", "a\r\nb\r\n", "\n\n", "a\rb\n", "x\r", "  PID COMMAND\n 1 init\n"]
    {
        assert_eq!(lines(text), text.lines().collect::<Vec<_>>());
    }
    assert_eq!(lines("a\n\nb"), vec!["a", "", "b"]);
}

#[test]
fn numbers_are_parsed_like_the_standard_library_does() {
    for text in [
        "", "0", "7", "42", "+42", "-1", "+", "++1", "4294967295", "4294967296",
        "99999999999999999999", "12a", "a12", " 12", "12 ", "1_000", "０１", "0000000000001",
    ] {
        assert_eq!(parse_number(text), text.parse::<u32>().ok(), "for {:?}", text);
    }
    assert_eq!(parse_number("4294967295"), Some(u32::MAX));
    assert_eq!(parse_number("4294967296"), None);
}

#[test]
fn a_line_names_a_process() {
    assert_eq!(parse_line("  123 bash"), Some(process("bash", 123)));
    assert_eq!(parse_line("1 systemd \n"), Some(process("systemd", 1)));
    assert_eq!(parse_line("77\tkworker/0:1 events"), Some(process("kworker/0:1 events", 77)));
    assert_eq!(parse_line("12   spaced   name  "), Some(process("spaced   name", 12)));
    assert_eq!(parse_line("abc name"), Some(process("name", 0)));
    assert_eq!(parse_line("99999999999 big"), Some(process("big", 0)));
    assert_eq!(parse_line("123"), None);
    assert_eq!(parse_line(""), None);
    assert_eq!(parse_line("   "), None);
}

#[test]
fn the_heading_is_skipped() {
    let stdout = "    PID COMMAND\n      1 systemd\n    812 bash\n    813 bash\nbroken\n    900 Xorg\n";
    assert_eq!(
        parse_ps(stdout),
        vec![process("systemd", 1), process("bash", 812), process("bash", 813), process("Xorg", 900)]
    );
    assert_eq!(parse_ps(""), vec![]);
    assert_eq!(parse_ps("PID COMMAND"), vec![]);
    assert_eq!(parse_ps("1 init"), vec![]);
}

#[test]
fn processes_are_unique_and_sorted_by_name() {
    let listing = vec![
        process("zsh", 5),
        process("Xorg", 900),
        process("bash", 812),
        process("bash", 813),
        process("alacritty", 7),
        process("Bash", 9),
        process("zsh", 6),
    ];
    assert_eq!(
        get_processes_impl(&listing),
        vec![
            process("alacritty", 7),
            process("bash", 812),
            process("Bash", 9),
            process("Xorg", 900),
            process("zsh", 5),
        ]
    );
    assert_eq!(get_processes_impl(&Vec::new()), vec![]);
}

#[test]
fn running_processes_from_a_listing() {
    let stdout = "  PID COMMAND\n  300 sshd\n  100 Finder\n  101 Finder\n  200 bash\n";
    assert_eq!(
        get_running_processes(stdout),
        vec![process("bash", 200), process("Finder", 100), process("sshd", 300)]
    );
}
