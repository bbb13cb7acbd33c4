//! The path resolver: where the helper executable, its configuration and its
//! sibling binary are looked for, and in which order.
//!
//! The resolver checks existence only. The caller joins each candidate onto
//! the directory it names, looks whether the file is there, and hands back
//! what it found, candidate by candidate.

use vstd::prelude::*;
use vstd::string::*;
use crate::error::{Artifact, ControlError};
use crate::platform::Platform;
use crate::supervisor::ProcessPaths;

verus! {

/// A directory from which a search starts.
#[derive(Clone, Copy, Debug, PartialEq, Eq, Structural)]
pub enum Root {
    /// The directory that holds the running application's own executable.
    ExeDir,
    /// The current working directory.
    WorkingDir,
    /// The root of the source tree that the application was built from.
    WorkspaceRoot,
}

/// One place to look: `file`, below the directories `folders` of `root`.
#[derive(Debug)]
pub struct Candidate {
    pub root: Root,
    pub folders: Vec<&'static str>,
    pub file: &'static str,
}

/// A candidate as the contracts see it.
pub struct Place {
    pub root: Root,
    pub folders: Seq<Seq<char>>,
    pub file: Seq<char>,
}

impl Candidate {
    /// The candidate as the contracts see it.
    pub open spec fn view(&self) -> Place {
        Place {
            root: self.root,
            folders: Seq::new(self.folders@.len(), |i: int| self.folders@[i]@),
            file: self.file@,
        }
    }
}

/// The places of a list of candidates, in order.
pub open spec fn places(candidates: Seq<Candidate>) -> Seq<Place> {
    Seq::new(candidates.len(), |i: int| candidates[i]@)
}

/// The name of the helper executable on each platform.
pub open spec fn kanata_name(platform: Platform) -> Seq<char> {
    if platform == Platform::Windows {
        "kanata_cmd_allowed.exe"@
    } else {
        "kanata_cmd_allowed"@
    }
}

/// The name of the sibling helper binary on each platform.
pub open spec fn core_name(platform: Platform) -> Seq<char> {
    if platform == Platform::Windows {
        "muhenkan-switch-core.exe"@
    } else {
        "muhenkan-switch-core"@
    }
}

/// The name of the helper executable.
pub fn kanata_binary_name(platform: Platform) -> (name: &'static str)
    ensures
        name@ == kanata_name(platform),
{
    match platform {
        Platform::Windows => "kanata_cmd_allowed.exe",
        _ => "kanata_cmd_allowed",
    }
}

/// The name of the sibling helper binary.
pub fn core_binary_name(platform: Platform) -> (name: &'static str)
    ensures
        name@ == core_name(platform),
{
    match platform {
        Platform::Windows => "muhenkan-switch-core.exe",
        _ => "muhenkan-switch-core",
    }
}

/// The place of `file` right below `root`.
pub open spec fn place_in(root: Root, file: Seq<char>) -> Place {
    Place { root, folders: Seq::empty(), file }
}

/// The place of `file` in the directory `folder` of `root`.
pub open spec fn place_below(root: Root, folder: Seq<char>, file: Seq<char>) -> Place {
    Place { root, folders: seq![folder], file }
}

/// Where the helper executable is looked for: beside the application, in the
/// working directory, in the source tree.
pub open spec fn kanata_places(platform: Platform) -> Seq<Place> {
    seq![
        place_in(Root::ExeDir, kanata_name(platform)),
        place_in(Root::WorkingDir, kanata_name(platform)),
        place_in(Root::WorkspaceRoot, kanata_name(platform)),
    ]
}

/// Where the configuration is looked for: beside the application, then in
/// the directory `kanata` of the working directory and of the source tree.
pub open spec fn kbd_places() -> Seq<Place> {
    seq![
        place_in(Root::ExeDir, "muhenkan.kbd"@),
        place_below(Root::WorkingDir, "kanata"@, "muhenkan.kbd"@),
        place_below(Root::WorkspaceRoot, "kanata"@, "muhenkan.kbd"@),
    ]
}

/// Where the sibling helper binary is looked for: beside the application, in
/// `bin` of the working directory and of the source tree, and among the
/// source tree's debug build.
pub open spec fn core_places(platform: Platform) -> Seq<Place> {
    seq![
        place_in(Root::ExeDir, core_name(platform)),
        place_below(Root::WorkingDir, "bin"@, core_name(platform)),
        place_below(Root::WorkspaceRoot, "bin"@, core_name(platform)),
        Place {
            root: Root::WorkspaceRoot,
            folders: seq!["target"@, "debug"@],
            file: core_name(platform),
        },
    ]
}

/// A candidate for `file` right below `root`.
fn candidate_in(root: Root, file: &'static str) -> (candidate: Candidate)
    ensures
        candidate@ == place_in(root, file@),
{
    let candidate = Candidate { root, folders: Vec::new(), file };
    assert(candidate@.folders =~= Seq::empty());
    candidate
}

/// A candidate for `file` in the directory `folder` of `root`.
fn candidate_below(root: Root, folder: &'static str, file: &'static str) -> (candidate: Candidate)
    ensures
        candidate@ == place_below(root, folder@, file@),
{
    let mut folders: Vec<&'static str> = Vec::new();
    folders.push(folder);
    let candidate = Candidate { root, folders, file };
    assert(candidate@.folders =~= seq![folder@]);
    candidate
}

/// The candidates for the helper executable, in search order.
pub fn kanata_candidates(platform: Platform) -> (candidates: Vec<Candidate>)
    ensures
        places(candidates@) == kanata_places(platform),
{
    let name = kanata_binary_name(platform);
    let mut candidates: Vec<Candidate> = Vec::new();
    candidates.push(candidate_in(Root::ExeDir, name));
    candidates.push(candidate_in(Root::WorkingDir, name));
    candidates.push(candidate_in(Root::WorkspaceRoot, name));
    assert(places(candidates@) =~= kanata_places(platform));
    candidates
}

/// The candidates for the configuration file, in search order.
pub fn kbd_candidates() -> (candidates: Vec<Candidate>)
    ensures
        places(candidates@) == kbd_places(),
{
    let mut candidates: Vec<Candidate> = Vec::new();
    candidates.push(candidate_in(Root::ExeDir, "muhenkan.kbd"));
    candidates.push(candidate_below(Root::WorkingDir, "kanata", "muhenkan.kbd"));
    candidates.push(candidate_below(Root::WorkspaceRoot, "kanata", "muhenkan.kbd"));
    assert(places(candidates@) =~= kbd_places());
    candidates
}

/// The candidates for the sibling helper binary, in search order.
pub fn core_candidates(platform: Platform) -> (candidates: Vec<Candidate>)
    ensures
        places(candidates@) == core_places(platform),
{
    let name = core_binary_name(platform);
    let mut candidates: Vec<Candidate> = Vec::new();
    candidates.push(candidate_in(Root::ExeDir, name));
    candidates.push(candidate_below(Root::WorkingDir, "bin", name));
    candidates.push(candidate_below(Root::WorkspaceRoot, "bin", name));
    let mut folders: Vec<&'static str> = Vec::new();
    folders.push("target");
    folders.push("debug");
    let deep = Candidate { root: Root::WorkspaceRoot, folders, file: name };
    assert(deep@.folders =~= seq!["target"@, "debug"@]);
    candidates.push(deep);
    assert(places(candidates@) =~= core_places(platform));
    candidates
}

/// The position of the first candidate that was found, if any.
pub open spec fn first_found(found: Seq<Option<String>>) -> Option<int> {
    if exists|i: int| 0 <= i < found.len() && found[i] is Some {
        Some(choose|i: int| 0 <= i < found.len() && found[i] is Some && forall|j: int|
            0 <= j < i ==> found[j] is None)
    } else {
        None
    }
}

/// The first position in `found` that holds something, where there is one,
/// is a position of `found`, holds something, and has nothing before it.
pub proof fn first_found_is_first(found: Seq<Option<String>>)
    ensures
        match first_found(found) {
            Some(i) => 0 <= i < found.len() && found[i] is Some && forall|j: int|
                0 <= j < i ==> found[j] is None,
            None => forall|i: int| 0 <= i < found.len() ==> found[i] is None,
        },
{
    if exists|i: int| 0 <= i < found.len() && found[i] is Some {
        let k = choose|i: int| 0 <= i < found.len() && found[i] is Some;
        least_found(found, k);
    }
}

/// Below every position that holds something there is a first one.
proof fn least_found(found: Seq<Option<String>>, k: int)
    requires
        0 <= k < found.len(),
        found[k] is Some,
    ensures
        exists|i: int|
            0 <= i < found.len() && found[i] is Some && forall|j: int|
                0 <= j < i ==> found[j] is None,
    decreases k,
{
    if exists|j: int| 0 <= j < k && found[j] is Some {
        let j = choose|j: int| 0 <= j < k && found[j] is Some;
        least_found(found, j);
    } else {
        assert(0 <= k < found.len() && found[k] is Some && forall|j: int|
            0 <= j < k ==> found[j] is None);
    }
}

/// The outcome of a search: the path of the first candidate found, or
/// `NotFound` for `artifact` when no candidate exists.
pub open spec fn resolved(found: Seq<Option<String>>, artifact: Artifact) -> Result<
    Seq<char>,
    ControlError,
> {
    match first_found(found) {
        Some(i) => Ok(found[i].unwrap()@),
        None => Err(ControlError::NotFound(artifact)),
    }
}

/// Picks the first candidate that exists. `found` holds, for each candidate
/// in search order, its path where the file is there.
pub fn resolve(found: &Vec<Option<String>>, artifact: Artifact) -> (path: Result<
    String,
    ControlError,
>)
    ensures
        match path {
            Ok(p) => resolved(found@, artifact) == Ok::<Seq<char>, ControlError>(p@),
            Err(e) => resolved(found@, artifact) == Err::<Seq<char>, ControlError>(e),
        },
{
    proof {
        first_found_is_first(found@);
    }
    let mut i: usize = 0;
    while i < found.len()
        invariant
            i <= found.len(),
            forall|j: int| 0 <= j < i ==> found@[j] is None,
        decreases found.len() - i,
    {
        match &found[i] {
            Some(p) => {
                assert(first_found(found@) == Some(i as int)) by {
                    let f = first_found(found@).unwrap();
                    if f < i {
                        assert(found@[f] is None);
                    }
                    if i < f {
                        assert(found@[i as int] is None);
                    }
                }
                return Ok(p.clone());
            },
            None => {},
        }
        i += 1;
    }
    Err(ControlError::NotFound(artifact))
}

/// The path of the helper executable: the first of its candidates that
/// exists.
pub fn kanata_path(found: &Vec<Option<String>>) -> (path: Result<String, ControlError>)
    ensures
        match path {
            Ok(p) => resolved(found@, Artifact::Executable) == Ok::<Seq<char>, ControlError>(p@),
            Err(e) => resolved(found@, Artifact::Executable) == Err::<Seq<char>, ControlError>(e),
        },
{
    resolve(found, Artifact::Executable)
}

/// The path of the configuration file: the first of its candidates that
/// exists.
pub fn kbd_path(found: &Vec<Option<String>>) -> (path: Result<String, ControlError>)
    ensures
        match path {
            Ok(p) => resolved(found@, Artifact::Config) == Ok::<Seq<char>, ControlError>(p@),
            Err(e) => resolved(found@, Artifact::Config) == Err::<Seq<char>, ControlError>(e),
        },
{
    resolve(found, Artifact::Config)
}

/// The directory of the sibling helper binary: that of the first of its
/// candidates that exists.
pub fn core_binary_dir(found: &Vec<Option<String>>) -> (dir: Result<String, ControlError>)
    ensures
        match dir {
            Ok(p) => resolved(found@, Artifact::HelperDir) == Ok::<Seq<char>, ControlError>(p@),
            Err(e) => resolved(found@, Artifact::HelperDir) == Err::<Seq<char>, ControlError>(e),
        },
{
    resolve(found, Artifact::HelperDir)
}

/// Both paths of a start, or the first artifact that is missing: the
/// executable before the configuration.
pub fn resolve_paths(
    executable: Result<String, ControlError>,
    config: Result<String, ControlError>,
) -> (paths: Result<ProcessPaths, Artifact>)
    ensures
        paths == (match (executable, config) {
            (Ok(e), Ok(c)) => Ok::<ProcessPaths, Artifact>(ProcessPaths { executable: e, config: c }),
            (Err(_), _) => Err(Artifact::Executable),
            (Ok(_), Err(_)) => Err(Artifact::Config),
        }),
{
    match executable {
        Ok(e) => match config {
            Ok(c) => Ok(ProcessPaths { executable: e, config: c }),
            Err(_) => Err(Artifact::Config),
        },
        Err(_) => Err(Artifact::Executable),
    }
}

/// Where the settings file is looked for: beside the application, then in
/// the working directory.
pub open spec fn config_places() -> Seq<Place> {
    seq![place_in(Root::ExeDir, "config.toml"@), place_in(Root::WorkingDir, "config.toml"@)]
}

/// The candidates for the settings file, in search order.
pub fn config_candidates() -> (candidates: Vec<Candidate>)
    ensures
        places(candidates@) == config_places(),
{
    let mut candidates: Vec<Candidate> = Vec::new();
    candidates.push(candidate_in(Root::ExeDir, "config.toml"));
    candidates.push(candidate_in(Root::WorkingDir, "config.toml"));
    assert(places(candidates@) =~= config_places());
    candidates
}

/// The path of the settings file: the first of its candidates that exists,
/// if any does.
pub fn config_path(found: &Vec<Option<String>>) -> (path: Option<String>)
    ensures
        match path {
            Some(p) => first_found(found@) is Some && found@[first_found(found@).unwrap()].unwrap()@
                == p@,
            None => first_found(found@) is None,
        },
{
    match resolve(found, Artifact::Config) {
        Ok(p) => Some(p),
        Err(_) => None,
    }
}

} // verus!
