//! Opening a configured folder.

use vstd::prelude::*;
use vstd::string::*;
use indexmap::IndexMap;
use crate::config::FolderEntry;
use crate::failure::CommandError;
use crate::ordered::folder_rows;
use crate::platform::Platform;
use crate::settings::get_folder_path;
use crate::text::{begins_with, str_eq, strip_prefix};

verus! {

/// A configured path, with its reference to the home directory made out.
#[derive(Debug, Clone, PartialEq, Eq)]
pub enum HomePath {
    /// The path as it is written.
    Literal(String),
    /// The home directory itself.
    Home,
    /// The path `rest` below the home directory.
    UnderHome(String),
}

/// A home path as the contracts see it.
pub enum HomePathView {
    Literal(Seq<char>),
    Home,
    UnderHome(Seq<char>),
}

impl HomePath {
    /// The path as the contracts see it.
    pub open spec fn view(&self) -> HomePathView {
        match self {
            HomePath::Literal(path) => HomePathView::Literal(path@),
            HomePath::Home => HomePathView::Home,
            HomePath::UnderHome(rest) => HomePathView::UnderHome(rest@),
        }
    }
}

/// What `path` stands for: with a known home directory, `~` is the home
/// directory and `~/rest` lies below it; everything else is taken as
/// written.
pub open spec fn expanded(path: Seq<char>, home_known: bool) -> HomePathView {
    if home_known && begins_with(path, "~/"@) {
        HomePathView::UnderHome(path.skip("~/"@.len() as int))
    } else if home_known && path == "~"@ {
        HomePathView::Home
    } else {
        HomePathView::Literal(path)
    }
}

/// Makes out the reference to the home directory at the start of `path_str`.
pub fn expand_home(path_str: &str, home_known: bool) -> (path: HomePath)
    ensures
        path@ == expanded(path_str@, home_known),
{
    proof {
        reveal_strlit("~/");
        reveal_strlit("~");
    }
    match strip_prefix(path_str, "~/") {
        Some(rest) => {
            if home_known {
                return HomePath::UnderHome(String::from_str(rest));
            }
        },
        None => {
            if str_eq(path_str, "~") && home_known {
                return HomePath::Home;
            }
        },
    }
    HomePath::Literal(String::from_str(path_str))
}

/// Where a platform keeps its trash.
#[derive(Clone, Copy, Debug, PartialEq, Eq, Structural)]
pub enum TrashPlace {
    /// `Trash/files` in the user's local data directory.
    FreeDesktop,
    /// `.Trash` in the home directory.
    HomeTrash,
    /// The recycle bin, which only the file manager can show.
    RecycleBin,
}

/// Where `platform` keeps its trash.
pub fn trash_place(platform: Platform) -> (place: TrashPlace)
    ensures
        place == (match platform {
            Platform::Linux => TrashPlace::FreeDesktop,
            Platform::MacOs => TrashPlace::HomeTrash,
            Platform::Windows => TrashPlace::RecycleBin,
        }),
{
    match platform {
        Platform::Linux => TrashPlace::FreeDesktop,
        Platform::MacOs => TrashPlace::HomeTrash,
        Platform::Windows => TrashPlace::RecycleBin,
    }
}

/// The trash folder to open, given whether the platform's trash directory is
/// there. The recycle bin has no path: once the file manager was asked to
/// show it, this is reported as a failure of its own.
pub fn resolve_trash_path(platform: Platform, present: bool) -> (place: Result<
    TrashPlace,
    CommandError,
>)
    ensures
        place == (match platform {
            Platform::Windows => Err::<TrashPlace, CommandError>(CommandError::OpenedViaExplorer),
            Platform::Linux => if present {
                Ok(TrashPlace::FreeDesktop)
            } else {
                Err(CommandError::TrashNotFound)
            },
            Platform::MacOs => if present {
                Ok(TrashPlace::HomeTrash)
            } else {
                Err(CommandError::TrashNotFound)
            },
        }),
{
    match trash_place(platform) {
        TrashPlace::RecycleBin => Err(CommandError::OpenedViaExplorer),
        place => if present {
            Ok(place)
        } else {
            Err(CommandError::TrashNotFound)
        },
    }
}

/// What to open for a folder.
#[derive(Debug, Clone, PartialEq, Eq)]
pub enum FolderPlan {
    /// The folder at this path, if it exists.
    Path(HomePath),
    /// The platform's trash.
    Trash,
}

/// What to open for a folder whose entry holds no path: the trash for the
/// entry `trash`, and nothing for any other.
pub fn open_platform_default(target: &str) -> (plan: Result<FolderPlan, CommandError>)
    ensures
        match plan {
            Ok(p) => target@ == "trash"@ && p == FolderPlan::Trash,
            Err(e) => target@ != "trash"@ && e is EmptyFolder && e->EmptyFolder_target@
                == target@,
        },
{
    if str_eq(target, "trash") {
        Ok(FolderPlan::Trash)
    } else {
        Err(CommandError::EmptyFolder { target: String::from_str(target) })
    }
}

/// What the folder command does for the row with the path `path`.
pub open spec fn folder_plan(target: Seq<char>, path: Seq<char>, home_known: bool) -> Option<
    Option<HomePathView>,
> {
    if path.len() == 0 {
        if target == "trash"@ {
            Some(None)
        } else {
            None
        }
    } else {
        Some(Some(expanded(path, home_known)))
    }
}

/// Decides what to open for the folder that the configuration calls
/// `target`.
pub fn run(target: &str, folders: &IndexMap<String, FolderEntry>, home_known: bool) -> (plan:
    Result<FolderPlan, CommandError>)
    ensures
        match plan {
            Ok(p) => exists|i: int|
                0 <= i < folder_rows(*folders).len() && folder_rows(*folders)[i].name == target@
                    && folder_plan(target@, folder_rows(*folders)[i].value, home_known) == Some(
                    match p {
                        FolderPlan::Path(path) => Some(path@),
                        FolderPlan::Trash => None,
                    },
                ),
            Err(CommandError::NotDefined(e)) => e.label@ == "Folder"@ && e.name@ == target@
                && forall|i: int|
                0 <= i < folder_rows(*folders).len() ==> folder_rows(*folders)[i].name != target@,
            Err(CommandError::EmptyFolder { target: named }) => named@ == target@ && exists|
                i: int,
            |
                0 <= i < folder_rows(*folders).len() && folder_rows(*folders)[i].name == target@
                    && folder_plan(target@, folder_rows(*folders)[i].value, home_known) is None,
            Err(_) => false,
        },
{
    match get_folder_path(folders, target) {
        Ok(path_str) => {
            if path_str.is_empty() {
                open_platform_default(target)
            } else {
                Ok(FolderPlan::Path(expand_home(path_str, home_known)))
            }
        },
        Err(e) => Err(CommandError::NotDefined(e)),
    }
}

/// Whether the folder at `path` can be opened: it has to exist.
pub fn confirm(path: &str, exists: bool) -> (checked: Result<(), CommandError>)
    ensures
        match checked {
            Ok(_) => exists,
            Err(e) => !exists && e is MissingFolder && e->MissingFolder_path@ == path@,
        },
{
    if exists {
        Ok(())
    } else {
        Err(CommandError::MissingFolder { path: String::from_str(path) })
    }
}

} // verus!
