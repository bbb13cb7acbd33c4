//! Failures of the single-shot commands.

use vstd::prelude::*;
use vstd::string::*;
use crate::settings::{not_defined_message, NotDefined};
use crate::text::{decimal, decimal_of};

verus! {

/// Why a command could not be carried out.
#[derive(Debug, Clone, PartialEq, Eq)]
pub enum CommandError {
    /// The configuration does not define the name.
    NotDefined(NotDefined),
    /// No action is bound to the dispatch key.
    Unbound { key: String },
    /// The folder's entry holds no path, and the platform has no default.
    EmptyFolder { target: String },
    /// The folder's path does not exist.
    MissingFolder { path: String },
    /// The platform's trash folder was not found.
    TrashNotFound,
    /// The timestamp action is none of `paste`, `copy` and `cut`.
    UnknownAction { action: String },
    /// None of the screenshot tools could be started.
    NoScreenshotTool,
    /// A helper program could not be run.
    ToolFailed { program: String },
    /// File operations on the file manager's selection are not available.
    ExplorerUnsupported,
    /// The recycle bin was handed to the file manager, which is all that can
    /// be done for it.
    OpenedViaExplorer,
    /// Fewer key events were accepted than were sent.
    InputRejected { accepted: u32 },
}

/// The message of each failure.
pub open spec fn message_of(e: CommandError) -> Seq<char> {
    match e {
        CommandError::NotDefined(inner) => not_defined_message(inner.label@, inner.name@),
        CommandError::Unbound { key } => "No action bound to key '"@ + key@
            + "' in config.toml"@,
        CommandError::EmptyFolder { target } => "Folder '"@ + target@
            + "' is not configured in config.toml (empty value)"@,
        CommandError::MissingFolder { path } => "Folder does not exist: "@ + path@,
        CommandError::TrashNotFound =>
            "Trash folder not found. Set [folders] trash path in config.toml"@,
        CommandError::UnknownAction { action } => "Unknown timestamp action: '"@ + action@
            + "'. Use paste, copy, or cut."@,
        CommandError::NoScreenshotTool =>
            "No screenshot tool found. Install flameshot, gnome-screenshot, or scrot."@,
        CommandError::ToolFailed { program } => "Failed to run "@ + program@,
        CommandError::ExplorerUnsupported =>
            "Explorer file operations are only supported on Windows"@,
        CommandError::OpenedViaExplorer => "Opened via explorer.exe"@,
        CommandError::InputRejected { accepted } => "SendInput failed: only "@ + decimal_of(
            accepted as nat,
        ) + " of 4 inputs sent"@,
    }
}

impl CommandError {
    /// The message shown to the user.
    pub fn message(&self) -> (text: String)
        ensures
            text@ == message_of(*self),
    {
        match self {
            CommandError::NotDefined(inner) => inner.message(),
            CommandError::Unbound { key } => {
                let mut text = String::from_str("No action bound to key '");
                text.append(key.as_str());
                text.append("' in config.toml");
                text
            },
            CommandError::EmptyFolder { target } => {
                let mut text = String::from_str("Folder '");
                text.append(target.as_str());
                text.append("' is not configured in config.toml (empty value)");
                text
            },
            CommandError::MissingFolder { path } => {
                let mut text = String::from_str("Folder does not exist: ");
                text.append(path.as_str());
                text
            },
            CommandError::TrashNotFound => String::from_str(
                "Trash folder not found. Set [folders] trash path in config.toml",
            ),
            CommandError::UnknownAction { action } => {
                let mut text = String::from_str("Unknown timestamp action: '");
                text.append(action.as_str());
                text.append("'. Use paste, copy, or cut.");
                text
            },
            CommandError::NoScreenshotTool => String::from_str(
                "No screenshot tool found. Install flameshot, gnome-screenshot, or scrot.",
            ),
            CommandError::ToolFailed { program } => {
                let mut text = String::from_str("Failed to run ");
                text.append(program.as_str());
                text
            },
            CommandError::ExplorerUnsupported => String::from_str(
                "Explorer file operations are only supported on Windows",
            ),
            CommandError::OpenedViaExplorer => String::from_str("Opened via explorer.exe"),
            CommandError::InputRejected { accepted } => {
                let mut text = String::from_str("SendInput failed: only ");
                let count = decimal(*accepted as u64);
                text.append(count.as_str());
                text.append(" of 4 inputs sent");
                text
            },
        }
    }
}

} // verus!
