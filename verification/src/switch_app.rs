//! Bringing an application's window to the front, or launching the
//! application where it has none.
//!
//! Running tools and asking the window system is the caller's part. What to
//! try, in which order, and when to stop is decided here, one step at a time.

use vstd::prelude::*;
use vstd::string::*;
use indexmap::IndexMap;
use crate::config::AppEntry;
use crate::failure::CommandError;
use crate::ordered::{app_row, app_rows};
use crate::settings::{get_app, NotDefined};
use crate::text::{
    ends_with, ends_with_ignore_case, eq_ignore_case, first_line, first_line_of, lowered, push_word,
    texts,
};

verus! {

/// The window system that the application runs under.
#[derive(Clone, Copy, Debug, PartialEq, Eq, Structural)]
pub enum Desktop {
    Windows,
    X11,
    Wayland,
    MacOs,
}

/// What `xdotool` matches a window by.
#[derive(Clone, Copy, Debug, PartialEq, Eq, Structural)]
pub enum SearchBy {
    Class,
    Name,
}

/// How far an activation has come.
#[derive(Clone, Copy, Debug, PartialEq, Eq, Structural)]
pub enum Stage {
    /// Not asked for yet.
    Fresh,
    /// `wmctrl` is running.
    Wmctrl,
    /// `xdotool search` is running.
    Searching(SearchBy),
    /// `xdotool windowactivate` is running.
    Raising(SearchBy),
    /// `osascript` is running.
    Scripting,
    /// The processes are being listed.
    Listing,
    /// A visible window of the processes is being looked for.
    Finding,
    /// The window is being brought to the front.
    Focusing,
    /// The application is being launched.
    Launching,
    /// The activation is over.
    Finished,
}

/// A running process.
#[derive(Debug, Clone, PartialEq, Eq)]
pub struct ProcessInfo {
    pub name: String,
    pub pid: u32,
}

/// What the caller reports to `Activation::next`.
#[derive(Debug)]
pub enum ActivateEvent {
    /// The activation is asked for.
    Requested,
    /// The tool was run: whether it could be started, whether it exited with
    /// success, and what it wrote to its standard output.
    Ran { started: bool, success: bool, output: String },
    /// The running processes.
    Listed(Vec<ProcessInfo>),
    /// The first visible top-level window of the processes asked about.
    Window(Option<isize>),
    /// The window was handed to the window system.
    Focused,
    /// The fallback was carried out: whether the launch command could be
    /// started.
    FellBack { started: bool },
}

/// What `Activation::next` asks the caller to do.
#[derive(Debug)]
pub enum ActivateAction {
    /// Run `program` with `args` and wait for it, then report `Ran`.
    Run { program: &'static str, args: Vec<String> },
    /// List the running processes, then report `Listed`.
    ListProcesses,
    /// Look for a visible top-level window of one of `pids`, then report
    /// `Window`.
    FindWindow { pids: Vec<u32> },
    /// Bring `window` to the front, then report `Focused`.
    Focus { window: isize },
    /// No window could be activated: warn that Wayland keeps windows from
    /// being activated if `warn` is set, launch `command` through the shell
    /// if there is one, then report `FellBack`.
    Fallback { command: Option<String>, warn: bool },
    /// The activation is over, with this result.
    Done(Result<(), CommandError>),
    /// The event answers nothing that was asked for; nothing has changed.
    Ignored,
}

/// An activation as the contracts see it.
pub struct ActivationView {
    pub desktop: Desktop,
    pub app: Seq<char>,
    pub launch: Option<Seq<char>>,
    pub stage: Stage,
}

/// An event as the contracts see it.
pub enum EventView {
    Requested,
    Ran { started: bool, success: bool, output: Seq<char> },
    Listed(Seq<(Seq<char>, u32)>),
    Window(Option<isize>),
    Focused,
    FellBack { started: bool },
}

/// An action as the contracts see it. `Done` holds the message of the
/// failure.
pub enum ActionView {
    Run { program: Seq<char>, args: Seq<Seq<char>> },
    ListProcesses,
    FindWindow { pids: Seq<u32> },
    Focus { window: isize },
    Fallback { command: Option<Seq<char>>, warn: bool },
    Done(Result<(), Seq<char>>),
    Ignored,
}

/// The names and identifiers of a list of processes.
pub open spec fn process_views(list: Seq<ProcessInfo>) -> Seq<(Seq<char>, u32)> {
    Seq::new(list.len(), |i: int| (list[i].name@, list[i].pid))
}

impl ActivateEvent {
    /// The event as the contracts see it.
    pub open spec fn view(&self) -> EventView {
        match self {
            ActivateEvent::Requested => EventView::Requested,
            ActivateEvent::Ran { started, success, output } => EventView::Ran {
                started: *started,
                success: *success,
                output: output@,
            },
            ActivateEvent::Listed(list) => EventView::Listed(process_views(list@)),
            ActivateEvent::Window(window) => EventView::Window(*window),
            ActivateEvent::Focused => EventView::Focused,
            ActivateEvent::FellBack { started } => EventView::FellBack { started: *started },
        }
    }
}

impl ActivateAction {
    /// The action as the contracts see it.
    pub open spec fn view(&self) -> ActionView {
        match self {
            ActivateAction::Run { program, args } => ActionView::Run {
                program: program@,
                args: texts(args@),
            },
            ActivateAction::ListProcesses => ActionView::ListProcesses,
            ActivateAction::FindWindow { pids } => ActionView::FindWindow { pids: pids@ },
            ActivateAction::Focus { window } => ActionView::Focus { window: *window },
            ActivateAction::Fallback { command, warn } => ActionView::Fallback {
                command: match command {
                    Some(c) => Some(c@),
                    None => None,
                },
                warn: *warn,
            },
            ActivateAction::Done(result) => ActionView::Done(
                match result {
                    Ok(_) => Ok(()),
                    Err(e) => Err(crate::failure::message_of(*e)),
                },
            ),
            ActivateAction::Ignored => ActionView::Ignored,
        }
    }
}

/// Whether a process called `name` belongs to the application `app`: the
/// names are the same but for case, with or without `.exe` behind the
/// application's.
pub open spec fn runs_app(name: Seq<char>, app: Seq<char>) -> bool {
    lowered(name) == lowered(app) || lowered(name) == lowered(app) + ".exe"@
}

/// The identifiers of the processes that belong to `app`, in the order of
/// the list.
pub open spec fn matching(list: Seq<(Seq<char>, u32)>, app: Seq<char>) -> Seq<u32>
    decreases list.len(),
{
    if list.len() == 0 {
        Seq::empty()
    } else {
        let before = matching(list.drop_last(), app);
        if runs_app(list.last().0, app) {
            before.push(list.last().1)
        } else {
            before
        }
    }
}

/// The script that asks an application to come to the front.
pub open spec fn activate_script(target: Seq<char>) -> Seq<char> {
    "tell application \""@ + target + "\" to activate"@
}

/// The `xdotool` call that searches the visible windows.
pub open spec fn search_call(by: SearchBy, app: Seq<char>) -> ActionView {
    ActionView::Run {
        program: "xdotool"@,
        args: seq![
            "search"@,
            "--onlyvisible"@,
            match by {
                SearchBy::Class => "--class"@,
                SearchBy::Name => "--name"@,
            },
            app,
        ],
    }
}

/// What follows when nothing could be activated: the fallback where there is
/// a command to launch or a warning to give, and the end otherwise.
pub open spec fn after_miss(s: ActivationView) -> (ActivationView, ActionView) {
    if s.launch is Some || s.desktop == Desktop::Wayland {
        (
            ActivationView { stage: Stage::Launching, ..s },
            ActionView::Fallback { command: s.launch, warn: s.desktop == Desktop::Wayland },
        )
    } else {
        (ActivationView { stage: Stage::Finished, ..s }, ActionView::Done(Ok(())))
    }
}

/// What follows a search by `by` that activated nothing: the search by name
/// after the one by class, and the fallback after that.
pub open spec fn after_search(s: ActivationView, by: SearchBy) -> (ActivationView, ActionView) {
    match by {
        SearchBy::Class => (
            ActivationView { stage: Stage::Searching(SearchBy::Name), ..s },
            search_call(SearchBy::Name, s.app),
        ),
        SearchBy::Name => after_miss(s),
    }
}

/// The end of an activation, with success.
pub open spec fn finished(s: ActivationView) -> (ActivationView, ActionView) {
    (ActivationView { stage: Stage::Finished, ..s }, ActionView::Done(Ok(())))
}

/// The activation after `event` reached it, and the answer.
pub open spec fn activate_step(s: ActivationView, event: EventView) -> (
    ActivationView,
    ActionView,
) {
    match (s.stage, event) {
        (Stage::Fresh, EventView::Requested) => match s.desktop {
            Desktop::X11 | Desktop::Wayland => (
                ActivationView { stage: Stage::Wmctrl, ..s },
                ActionView::Run { program: "wmctrl"@, args: seq!["-x"@, "-a"@, s.app] },
            ),
            Desktop::MacOs => (
                ActivationView { stage: Stage::Scripting, ..s },
                ActionView::Run {
                    program: "osascript"@,
                    args: seq![
                        "-e"@,
                        activate_script(
                            match s.launch {
                                Some(command) => command,
                                None => s.app,
                            },
                        ),
                    ],
                },
            ),
            Desktop::Windows => (
                ActivationView { stage: Stage::Listing, ..s },
                ActionView::ListProcesses,
            ),
        },
        (Stage::Wmctrl, EventView::Ran { started, success, output }) => if started && success {
            finished(s)
        } else {
            (
                ActivationView { stage: Stage::Searching(SearchBy::Class), ..s },
                search_call(SearchBy::Class, s.app),
            )
        },
        (Stage::Searching(by), EventView::Ran { started, success, output }) => if started
            && success && first_line_of(output) is Some {
            (
                ActivationView { stage: Stage::Raising(by), ..s },
                ActionView::Run {
                    program: "xdotool"@,
                    args: seq!["windowactivate"@, "--sync"@, first_line_of(output).unwrap()],
                },
            )
        } else {
            after_search(s, by)
        },
        (Stage::Raising(by), EventView::Ran { started, success, output }) => if started
            && success {
            finished(s)
        } else {
            after_search(s, by)
        },
        (Stage::Scripting, EventView::Ran { started, success, output }) => if started {
            finished(s)
        } else {
            (
                ActivationView { stage: Stage::Finished, ..s },
                ActionView::Done(Err("Failed to run "@ + "osascript"@)),
            )
        },
        (Stage::Listing, EventView::Listed(list)) => if matching(list, s.app).len() == 0 {
            after_miss(s)
        } else {
            (
                ActivationView { stage: Stage::Finding, ..s },
                ActionView::FindWindow { pids: matching(list, s.app) },
            )
        },
        (Stage::Finding, EventView::Window(window)) => match window {
            Some(found) => (
                ActivationView { stage: Stage::Focusing, ..s },
                ActionView::Focus { window: found },
            ),
            None => after_miss(s),
        },
        (Stage::Focusing, EventView::Focused) => finished(s),
        (Stage::Launching, EventView::FellBack { started }) => if s.desktop == Desktop::Windows
            && s.launch is Some && !started {
            (
                ActivationView { stage: Stage::Finished, ..s },
                ActionView::Done(Err("Failed to run "@ + s.launch.unwrap())),
            )
        } else {
            finished(s)
        },
        _ => (s, ActionView::Ignored),
    }
}

/// One activation in flight.
#[derive(Debug)]
pub struct Activation {
    desktop: Desktop,
    app: String,
    launch: Option<String>,
    stage: Stage,
}

/// The identifiers of the processes in `list` that belong to `app`.
pub fn matching_pids(list: &Vec<ProcessInfo>, app: &str) -> (pids: Vec<u32>)
    ensures
        pids@ == matching(process_views(list@), app@),
{
    let ghost all = process_views(list@);
    let mut with_suffix = String::from_str(app);
    with_suffix.append(".exe");
    proof {
        reveal_strlit(".exe");
        assert(lowered(".exe"@) =~= ".exe"@);
        assert(lowered(with_suffix@) =~= lowered(app@) + ".exe"@);
    }
    let mut pids: Vec<u32> = Vec::new();
    let mut i: usize = 0;
    assert(all.take(0) =~= Seq::empty());
    while i < list.len()
        invariant
            i <= list.len(),
            all == process_views(list@),
            lowered(with_suffix@) == lowered(app@) + ".exe"@,
            pids@ == matching(all.take(i as int), app@),
        decreases list.len() - i,
    {
        let name = list[i].name.as_str();
        proof {
            let next = all.take(i + 1);
            assert(next.drop_last() =~= all.take(i as int));
            assert(next.last() == (name@, list[i as int].pid));
        }
        if eq_ignore_case(name, app) || eq_ignore_case(name, with_suffix.as_str()) {
            pids.push(list[i].pid);
        }
        i += 1;
    }
    assert(all.take(i as int) =~= all);
    pids
}

impl Activation {
    /// The activation as the contracts see it.
    pub closed spec fn view(&self) -> ActivationView {
        ActivationView {
            desktop: self.desktop,
            app: self.app@,
            launch: match self.launch {
                Some(command) => Some(command@),
                None => None,
            },
            stage: self.stage,
        }
    }

    /// Whether the activation is over.
    pub fn finished(&self) -> (over: bool)
        ensures
            over == (self@.stage == Stage::Finished),
    {
        matches!(self.stage, Stage::Finished)
    }

    /// The `xdotool` call that searches the visible windows.
    fn search(&self, by: SearchBy) -> (action: ActivateAction)
        ensures
            action@ == search_call(by, self@.app),
    {
        let mut args: Vec<String> = Vec::new();
        assert(texts(args@) =~= Seq::empty());
        push_word(&mut args, "search");
        push_word(&mut args, "--onlyvisible");
        match by {
            SearchBy::Class => push_word(&mut args, "--class"),
            SearchBy::Name => push_word(&mut args, "--name"),
        }
        push_word(&mut args, self.app.as_str());
        assert(texts(args@) =~= search_call(by, self@.app)->Run_args);
        ActivateAction::Run { program: "xdotool", args }
    }

    /// Ends the activation with success.
    fn finish(&mut self) -> (action: ActivateAction)
        ensures
            (final(self)@, action@) == finished(old(self)@),
    {
        self.stage = Stage::Finished;
        ActivateAction::Done(Ok(()))
    }

    /// Goes on when nothing could be activated.
    fn miss(&mut self) -> (action: ActivateAction)
        ensures
            (final(self)@, action@) == after_miss(old(self)@),
    {
        let warn = matches!(self.desktop, Desktop::Wayland);
        match &self.launch {
            Some(command) => {
                let command = Some(command.clone());
                self.stage = Stage::Launching;
                ActivateAction::Fallback { command, warn }
            },
            None => if warn {
                self.stage = Stage::Launching;
                ActivateAction::Fallback { command: None, warn }
            } else {
                self.stage = Stage::Finished;
                ActivateAction::Done(Ok(()))
            },
        }
    }

    /// Goes on when a search by `by` activated nothing.
    fn search_missed(&mut self, by: SearchBy) -> (action: ActivateAction)
        ensures
            (final(self)@, action@) == after_search(old(self)@, by),
    {
        match by {
            SearchBy::Class => {
                self.stage = Stage::Searching(SearchBy::Name);
                self.search(SearchBy::Name)
            },
            SearchBy::Name => self.miss(),
        }
    }

    /// Takes one step of the activation.
    ///
    /// Under X11 and Wayland `wmctrl` is tried first, then `xdotool` by
    /// window class, then by window name; the first that succeeds ends the
    /// activation. On macOS the application is asked to activate itself. On
    /// Windows a visible window of the application's processes is brought to
    /// the front. Where nothing could be activated, the launch command is
    /// run, and its failure is reported on Windows only.
    pub fn next(&mut self, event: ActivateEvent) -> (action: ActivateAction)
        ensures
            (final(self)@, action@) == activate_step(old(self)@, event@),
    {
        let ghost ev = event@;
        match event {
            ActivateEvent::Requested => match self.stage {
                Stage::Fresh => match self.desktop {
                    Desktop::X11 | Desktop::Wayland => {
                        let mut args: Vec<String> = Vec::new();
                        assert(texts(args@) =~= Seq::empty());
                        push_word(&mut args, "-x");
                        push_word(&mut args, "-a");
                        push_word(&mut args, self.app.as_str());
                        assert(texts(args@) =~= seq!["-x"@, "-a"@, self@.app]);
                        self.stage = Stage::Wmctrl;
                        ActivateAction::Run { program: "wmctrl", args }
                    },
                    Desktop::MacOs => {
                        let mut script = String::from_str("tell application \"");
                        match &self.launch {
                            Some(command) => script.append(command.as_str()),
                            None => script.append(self.app.as_str()),
                        }
                        script.append("\" to activate");
                        assert(script@ == activate_script(
                            match self@.launch {
                                Some(command) => command,
                                None => self@.app,
                            },
                        ));
                        let mut args: Vec<String> = Vec::new();
                        assert(texts(args@) =~= Seq::empty());
                        push_word(&mut args, "-e");
                        push_word(&mut args, script.as_str());
                        assert(texts(args@) =~= seq![
                            "-e"@,
                            activate_script(
                                match self@.launch {
                                    Some(command) => command,
                                    None => self@.app,
                                },
                            ),
                        ]);
                        self.stage = Stage::Scripting;
                        let action = ActivateAction::Run { program: "osascript", args };
                        assert(action@->Run_args == activate_step(old(self)@, ev).1->Run_args);
                        action
                    },
                    Desktop::Windows => {
                        self.stage = Stage::Listing;
                        ActivateAction::ListProcesses
                    },
                },
                _ => ActivateAction::Ignored,
            },
            ActivateEvent::Ran { started, success, output } => match self.stage {
                Stage::Wmctrl => if started && success {
                    self.finish()
                } else {
                    self.stage = Stage::Searching(SearchBy::Class);
                    self.search(SearchBy::Class)
                },
                Stage::Searching(by) => {
                    let line = if started && success {
                        first_line(output.as_str())
                    } else {
                        None
                    };
                    match line {
                        Some(window) => {
                            let mut args: Vec<String> = Vec::new();
                            assert(texts(args@) =~= Seq::empty());
                            push_word(&mut args, "windowactivate");
                            push_word(&mut args, "--sync");
                            push_word(&mut args, window);
                            assert(texts(args@) =~= seq![
                                "windowactivate"@,
                                "--sync"@,
                                first_line_of(output@).unwrap(),
                            ]);
                            self.stage = Stage::Raising(by);
                            ActivateAction::Run { program: "xdotool", args }
                        },
                        None => self.search_missed(by),
                    }
                },
                Stage::Raising(by) => if started && success {
                    self.finish()
                } else {
                    self.search_missed(by)
                },
                Stage::Scripting => if started {
                    self.finish()
                } else {
                    self.stage = Stage::Finished;
                    ActivateAction::Done(
                        Err(CommandError::ToolFailed { program: String::from_str("osascript") }),
                    )
                },
                _ => ActivateAction::Ignored,
            },
            ActivateEvent::Listed(list) => match self.stage {
                Stage::Listing => {
                    let pids = matching_pids(&list, self.app.as_str());
                    if pids.len() == 0 {
                        self.miss()
                    } else {
                        self.stage = Stage::Finding;
                        ActivateAction::FindWindow { pids }
                    }
                },
                _ => ActivateAction::Ignored,
            },
            ActivateEvent::Window(window) => match self.stage {
                Stage::Finding => match window {
                    Some(found) => {
                        self.stage = Stage::Focusing;
                        ActivateAction::Focus { window: found }
                    },
                    None => self.miss(),
                },
                _ => ActivateAction::Ignored,
            },
            ActivateEvent::Focused => match self.stage {
                Stage::Focusing => self.finish(),
                _ => ActivateAction::Ignored,
            },
            ActivateEvent::FellBack { started } => match self.stage {
                Stage::Launching => {
                    let failed = match (&self.launch, self.desktop) {
                        (Some(command), Desktop::Windows) => if started {
                            None
                        } else {
                            Some(command.clone())
                        },
                        _ => None,
                    };
                    match failed {
                        Some(program) => {
                            assert(Some(program@) == self@.launch);
                            self.stage = Stage::Finished;
                            let action = ActivateAction::Done(
                                Err(CommandError::ToolFailed { program }),
                            );
                            assert(action@ == ActionView::Done(
                                Err("Failed to run "@ + old(self)@.launch.unwrap()),
                            ));
                                action
                        },
                        None => self.finish(),
                    }
                },
                _ => ActivateAction::Ignored,
            },
        }
    }
}

/// An activation of the application whose process is called `app`, with
/// `launch` as the command to fall back on, not asked for yet.
pub fn activate_window(app: &str, launch: Option<&str>, desktop: Desktop) -> (activation:
    Activation)
    ensures
        activation@ == (ActivationView {
            desktop,
            app: app@,
            launch: match launch {
                Some(command) => Some(command@),
                None => None,
            },
            stage: Stage::Fresh,
        }),
{
    Activation {
        desktop,
        app: String::from_str(app),
        launch: match launch {
            Some(command) => Some(String::from_str(command)),
            None => None,
        },
        stage: Stage::Fresh,
    }
}

/// An activation of the application that the configuration calls `target`.
pub fn run(target: &str, apps: &IndexMap<String, AppEntry>, desktop: Desktop) -> (activation:
    Result<Activation, NotDefined>)
    ensures
        match activation {
            Ok(started) => exists|i: int|
                0 <= i < app_rows(*apps).len() && app_rows(*apps)[i].name == target@
                    && started@ == (ActivationView {
                    desktop,
                    app: app_rows(*apps)[i].value,
                    launch: Some(
                        match app_rows(*apps)[i].command {
                            Some(command) => command,
                            None => app_rows(*apps)[i].value,
                        },
                    ),
                    stage: Stage::Fresh,
                }),
            Err(e) => e.label@ == "App"@ && e.name@ == target@ && forall|i: int|
                0 <= i < app_rows(*apps).len() ==> app_rows(*apps)[i].name != target@,
        },
{
    match get_app(apps, target) {
        Ok(entry) => {
            let started = activate_window(entry.process(), entry.command(), desktop);
            proof {
                let at = choose|i: int|
                    0 <= i < app_rows(*apps).len() && app_rows(*apps)[i] == app_row(
                        target@,
                        *entry,
                    );
                assert(app_rows(*apps)[at].name == target@);
                assert(app_rows(*apps)[at].value == entry.process@);
            }
            Ok(started)
        },
        Err(e) => Err(e),
    }
}

/// How a launch command is started.
#[derive(Debug, Clone, PartialEq, Eq)]
pub enum LaunchPlan {
    /// Run `program` with `args`, without a console window where `hidden` is
    /// set.
    Program { program: &'static str, args: Vec<String>, hidden: bool },
    /// Hand `file` to the shell of the desktop to open it.
    ShellOpen { file: String },
}

/// A launch plan as the contracts see it.
pub enum LaunchPlanView {
    Program { program: Seq<char>, args: Seq<Seq<char>>, hidden: bool },
    ShellOpen { file: Seq<char> },
}

impl LaunchPlan {
    /// The plan as the contracts see it.
    pub open spec fn view(&self) -> LaunchPlanView {
        match self {
            LaunchPlan::Program { program, args, hidden } => LaunchPlanView::Program {
                program: program@,
                args: texts(args@),
                hidden: *hidden,
            },
            LaunchPlan::ShellOpen { file } => LaunchPlanView::ShellOpen { file: file@ },
        }
    }
}

/// Whether `cmd` is a command script, which only the command interpreter
/// can run: it ends with `.cmd` or `.bat`, in whatever case, or a script of
/// that name was found on the search path.
pub open spec fn is_script(cmd: Seq<char>, script_on_path: bool) -> bool {
    ends_with(lowered(cmd), ".cmd"@) || ends_with(lowered(cmd), ".bat"@) || script_on_path
}

/// Whether `cmd` has to be run by the command interpreter.
pub fn needs_cmd_exe(cmd: &str, script_on_path: bool) -> (needed: bool)
    ensures
        needed == is_script(cmd@, script_on_path),
{
    proof {
        reveal_strlit(".cmd");
        reveal_strlit(".bat");
        assert(lowered(".cmd"@) =~= ".cmd"@);
        assert(lowered(".bat"@) =~= ".bat"@);
    }
    ends_with_ignore_case(cmd, ".cmd") || ends_with_ignore_case(cmd, ".bat") || script_on_path
}

/// The names under which `cmd` may stand on the search path as a script.
pub fn script_names(cmd: &str) -> (names: (String, String))
    ensures
        names.0@ == cmd@ + ".cmd"@,
        names.1@ == cmd@ + ".bat"@,
{
    let mut first = String::from_str(cmd);
    first.append(".cmd");
    let mut second = String::from_str(cmd);
    second.append(".bat");
    (first, second)
}

/// How `cmd` is started under `desktop`: on Windows through the command
/// interpreter, hidden, where it is a script, and through the shell of the
/// desktop otherwise; elsewhere through `sh`.
pub open spec fn launch_of(desktop: Desktop, cmd: Seq<char>, script_on_path: bool) -> LaunchPlanView {
    if desktop == Desktop::Windows {
        if is_script(cmd, script_on_path) {
            LaunchPlanView::Program {
                program: "cmd"@,
                args: seq!["/C"@, "start"@, "/B"@, ""@, cmd],
                hidden: true,
            }
        } else {
            LaunchPlanView::ShellOpen { file: cmd }
        }
    } else {
        LaunchPlanView::Program { program: "sh"@, args: seq!["-c"@, cmd], hidden: false }
    }
}

/// How the launch command `cmd` is started.
pub fn shell_execute(desktop: Desktop, cmd: &str, script_on_path: bool) -> (plan: LaunchPlan)
    ensures
        plan@ == launch_of(desktop, cmd@, script_on_path),
{
    let mut args: Vec<String> = Vec::new();
    assert(texts(args@) =~= Seq::empty());
    match desktop {
        Desktop::Windows => {
            if needs_cmd_exe(cmd, script_on_path) {
                push_word(&mut args, "/C");
                push_word(&mut args, "start");
                push_word(&mut args, "/B");
                push_word(&mut args, "");
                push_word(&mut args, cmd);
                assert(texts(args@) =~= seq!["/C"@, "start"@, "/B"@, ""@, cmd@]);
                LaunchPlan::Program { program: "cmd", args, hidden: true }
            } else {
                LaunchPlan::ShellOpen { file: String::from_str(cmd) }
            }
        },
        _ => {
            push_word(&mut args, "-c");
            push_word(&mut args, cmd);
            assert(texts(args@) =~= seq!["-c"@, cmd@]);
            LaunchPlan::Program { program: "sh", args, hidden: false }
        },
    }
}

} // verus!
