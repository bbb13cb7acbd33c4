//! The command with which the helper is spawned.

use vstd::prelude::*;
use vstd::string::*;
use crate::platform::Platform;
use crate::supervisor::ProcessPaths;

verus! {

/// The flag that points the helper at its configuration file.
pub const CONFIG_FLAG: &'static str = "--cfg";

/// What to spawn, and how.
#[derive(Debug)]
pub struct SpawnCommand {
    /// The executable.
    pub program: String,
    /// Its arguments, in order.
    pub args: Vec<String>,
    /// The value of `PATH` for the child, where it differs from the
    /// inherited one. Everything else in the environment is inherited.
    pub path: Option<String>,
    /// Whether the child's console window must be kept from showing.
    pub hide_console: bool,
}

/// The value of `PATH` with which the helper finds its sibling binary: the
/// sibling's directory, put in front of the inherited value.
pub open spec fn extended_path(
    helper_dir: Seq<char>,
    inherited: Seq<char>,
    platform: Platform,
) -> Seq<char> {
    helper_dir + Platform::path_separator_of(platform) + inherited
}

/// Whether `command` spawns the executable of `paths` with the flag that
/// names its configuration, with `PATH` extended by `helper_dir` where there
/// is one, and without a visible console where the platform would open one.
pub open spec fn launches(
    command: SpawnCommand,
    paths: ProcessPaths,
    helper_dir: Option<Seq<char>>,
    inherited: Seq<char>,
    platform: Platform,
) -> bool {
    &&& command.program@ == paths.executable@
    &&& command.args@.len() == 2
    &&& command.args@[0]@ == CONFIG_FLAG@
    &&& command.args@[1]@ == paths.config@
    &&& match helper_dir {
        Some(dir) => command.path is Some && command.path.unwrap()@ == extended_path(
            dir,
            inherited,
            platform,
        ),
        None => command.path is None,
    }
    &&& command.hide_console == (platform == Platform::Windows)
}

/// The command that starts the helper: the executable, the configuration
/// flag and the configuration path.
pub fn spawn_command(
    paths: &ProcessPaths,
    helper_dir: Option<&str>,
    inherited_path: &str,
    platform: Platform,
) -> (command: SpawnCommand)
    ensures
        launches(
            command,
            *paths,
            match helper_dir {
                Some(dir) => Some(dir@),
                None => None,
            },
            inherited_path@,
            platform,
        ),
{
    let mut args: Vec<String> = Vec::new();
    args.push(String::from_str(CONFIG_FLAG));
    args.push(paths.config.clone());
    let path = match helper_dir {
        Some(dir) => {
            let mut value = String::from_str(dir);
            value.append(platform.path_separator());
            value.append(inherited_path);
            Some(value)
        },
        None => None,
    };
    SpawnCommand {
        program: paths.executable.clone(),
        args,
        path,
        hide_console: matches!(platform, Platform::Windows),
    }
}

} // verus!
