//! Simulated key strokes: copy and paste.

use vstd::prelude::*;
use vstd::string::*;
use crate::failure::CommandError;
use crate::platform::Platform;
use crate::text::{push_word, texts};

verus! {

/// A key of the keyboard.
#[derive(Clone, Copy, Debug, PartialEq, Eq, Structural)]
pub enum Key {
    Control,
    C,
    V,
}

/// One key event: `key` goes down, or comes up.
#[derive(Clone, Copy, Debug, PartialEq, Eq, Structural)]
pub struct KeyInput {
    pub key: Key,
    pub up: bool,
}

/// How many key events one stroke with the control key is made of.
pub const CHORD_LEN: u32 = 4;

/// The events of a stroke of `key` with the control key held: control down,
/// key down, key up, control up.
pub open spec fn chord(key: Key) -> Seq<KeyInput> {
    seq![
        KeyInput { key: Key::Control, up: false },
        KeyInput { key, up: false },
        KeyInput { key, up: true },
        KeyInput { key: Key::Control, up: true },
    ]
}

/// The events that press `key` while the control key is held.
pub fn send_ctrl_key(key: Key) -> (inputs: Vec<KeyInput>)
    ensures
        inputs@ == chord(key),
{
    let mut inputs: Vec<KeyInput> = Vec::new();
    inputs.push(KeyInput { key: Key::Control, up: false });
    inputs.push(KeyInput { key, up: false });
    inputs.push(KeyInput { key, up: true });
    inputs.push(KeyInput { key: Key::Control, up: true });
    assert(inputs@ =~= chord(key));
    inputs
}

/// Whether the stroke went through: all four events have to be accepted.
pub fn check_sent(sent: u32) -> (checked: Result<(), CommandError>)
    ensures
        checked == (if sent == CHORD_LEN {
            Ok::<(), CommandError>(())
        } else {
            Err(CommandError::InputRejected { accepted: sent })
        }),
{
    if sent == CHORD_LEN {
        Ok(())
    } else {
        Err(CommandError::InputRejected { accepted: sent })
    }
}

/// How a key stroke is brought about.
#[derive(Debug, Clone, PartialEq, Eq)]
pub enum KeyStroke {
    /// Hand these events to the operating system.
    Inputs(Vec<KeyInput>),
    /// Run this program with these arguments.
    Tool { program: &'static str, args: Vec<String> },
}

/// A key stroke as the contracts see it.
pub enum KeyStrokeView {
    Inputs(Seq<KeyInput>),
    Tool { program: Seq<char>, args: Seq<Seq<char>> },
}

impl KeyStroke {
    /// The stroke as the contracts see it.
    pub open spec fn view(&self) -> KeyStrokeView {
        match self {
            KeyStroke::Inputs(inputs) => KeyStrokeView::Inputs(inputs@),
            KeyStroke::Tool { program, args } => KeyStrokeView::Tool {
                program: program@,
                args: texts(args@),
            },
        }
    }
}

/// How `platform` is made to press the letter `key` with its command key:
/// key events on Windows, `xdotool` on Linux, a script on macOS.
pub open spec fn stroke_of(platform: Platform, key: Key) -> KeyStrokeView {
    match platform {
        Platform::Windows => KeyStrokeView::Inputs(chord(key)),
        Platform::Linux => KeyStrokeView::Tool {
            program: "xdotool"@,
            args: seq![
                "key"@,
                if key == Key::V {
                    "ctrl+v"@
                } else {
                    "ctrl+c"@
                },
            ],
        },
        Platform::MacOs => KeyStrokeView::Tool {
            program: "osascript"@,
            args: seq![
                "-e"@,
                if key == Key::V {
                    "tell application \"System Events\" to keystroke \"v\" using command down"@
                } else {
                    "tell application \"System Events\" to keystroke \"c\" using command down"@
                },
            ],
        },
    }
}

/// The stroke for the letter `key`.
fn simulate(platform: Platform, paste: bool) -> (stroke: KeyStroke)
    ensures
        stroke@ == stroke_of(
            platform,
            if paste {
                Key::V
            } else {
                Key::C
            },
        ),
{
    match platform {
        Platform::Windows => KeyStroke::Inputs(
            send_ctrl_key(
                if paste {
                    Key::V
                } else {
                    Key::C
                },
            ),
        ),
        Platform::Linux => {
            let mut args: Vec<String> = Vec::new();
            assert(texts(args@) =~= Seq::empty());
            push_word(&mut args, "key");
            push_word(
                &mut args,
                if paste {
                    "ctrl+v"
                } else {
                    "ctrl+c"
                },
            );
            let stroke = KeyStroke::Tool { program: "xdotool", args };
            assert(stroke@->Tool_args =~= stroke_of(
                platform,
                if paste {
                    Key::V
                } else {
                    Key::C
                },
            )->Tool_args);
            stroke
        },
        Platform::MacOs => {
            let mut args: Vec<String> = Vec::new();
            assert(texts(args@) =~= Seq::empty());
            push_word(&mut args, "-e");
            push_word(
                &mut args,
                if paste {
                    "tell application \"System Events\" to keystroke \"v\" using command down"
                } else {
                    "tell application \"System Events\" to keystroke \"c\" using command down"
                },
            );
            let stroke = KeyStroke::Tool { program: "osascript", args };
            assert(stroke@->Tool_args =~= stroke_of(
                platform,
                if paste {
                    Key::V
                } else {
                    Key::C
                },
            )->Tool_args);
            stroke
        },
    }
}

/// The stroke that copies the selection.
pub fn simulate_copy(platform: Platform) -> (stroke: KeyStroke)
    ensures
        stroke@ == stroke_of(platform, Key::C),
{
    simulate(platform, false)
}

/// The stroke that pastes the clipboard.
pub fn simulate_paste(platform: Platform) -> (stroke: KeyStroke)
    ensures
        stroke@ == stroke_of(platform, Key::V),
{
    simulate(platform, true)
}

/// The result of a stroke made by a tool: it fails only where the tool could
/// not be run.
pub fn tool_result(program: &str, started: bool) -> (result: Result<(), CommandError>)
    ensures
        match result {
            Ok(_) => started,
            Err(e) => !started && e is ToolFailed && e->ToolFailed_program@ == program@,
        },
{
    if started {
        Ok(())
    } else {
        Err(CommandError::ToolFailed { program: String::from_str(program) })
    }
}

} // verus!
