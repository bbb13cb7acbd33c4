//! Taking a screenshot with whatever tool the platform offers.

use vstd::prelude::*;
use vstd::string::*;
use crate::failure::CommandError;
use crate::platform::Platform;

verus! {

/// A screenshot tool and the argument that makes it interactive.
#[derive(Clone, Copy, Debug, PartialEq, Eq)]
pub struct Tool {
    pub program: &'static str,
    pub arg: Option<&'static str>,
}

/// A tool as the contracts see it.
pub open spec fn tool_view(tool: Tool) -> (Seq<char>, Option<Seq<char>>) {
    (
        tool.program@,
        match tool.arg {
            Some(arg) => Some(arg@),
            None => None,
        },
    )
}

/// The tools of `platform`, in the order in which they are tried.
pub open spec fn tools_of(platform: Platform) -> Seq<(Seq<char>, Option<Seq<char>>)> {
    match platform {
        Platform::Windows => seq![("snippingtool"@, None)],
        Platform::Linux => seq![
            ("flameshot"@, Some("gui"@)),
            ("gnome-screenshot"@, Some("-i"@)),
            ("scrot"@, Some("-s"@)),
        ],
        Platform::MacOs => seq![("screencapture"@, Some("-i"@))],
    }
}

/// The tool to start once `failed` tools could not be started: the next one
/// in order, or the failure when none is left. On Linux the failure names no
/// tool, elsewhere it names the platform's only one.
pub fn take_screenshot(platform: Platform, failed: usize) -> (next: Result<Tool, CommandError>)
    ensures
        match next {
            Ok(tool) => failed < tools_of(platform).len() && tool_view(tool) == tools_of(
                platform,
            )[failed as int],
            Err(e) => failed >= tools_of(platform).len() && (match platform {
                Platform::Linux => e == CommandError::NoScreenshotTool,
                _ => e is ToolFailed && e->ToolFailed_program@ == tools_of(platform)[0].0,
            }),
        },
{
    match platform {
        Platform::Windows => if failed == 0 {
            Ok(Tool { program: "snippingtool", arg: None })
        } else {
            Err(CommandError::ToolFailed { program: String::from_str("snippingtool") })
        },
        Platform::Linux => if failed == 0 {
            Ok(Tool { program: "flameshot", arg: Some("gui") })
        } else if failed == 1 {
            Ok(Tool { program: "gnome-screenshot", arg: Some("-i") })
        } else if failed == 2 {
            Ok(Tool { program: "scrot", arg: Some("-s") })
        } else {
            Err(CommandError::NoScreenshotTool)
        },
        Platform::MacOs => if failed == 0 {
            Ok(Tool { program: "screencapture", arg: Some("-i") })
        } else {
            Err(CommandError::ToolFailed { program: String::from_str("screencapture") })
        },
    }
}

/// The tool to start for a screenshot once `failed` tools could not be
/// started.
pub fn run(platform: Platform, failed: usize) -> (next: Result<Tool, CommandError>)
    ensures
        match next {
            Ok(tool) => failed < tools_of(platform).len() && tool_view(tool) == tools_of(
                platform,
            )[failed as int],
            Err(e) => failed >= tools_of(platform).len() && (match platform {
                Platform::Linux => e == CommandError::NoScreenshotTool,
                _ => e is ToolFailed && e->ToolFailed_program@ == tools_of(platform)[0].0,
            }),
        },
{
    take_screenshot(platform, failed)
}

} // verus!
