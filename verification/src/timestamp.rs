//! Timestamps in text and in file names.

use vstd::prelude::*;
use vstd::string::*;
use crate::failure::CommandError;
use crate::text::{
    begins_with, decimal, decimal_of, ends_with, str_eq, strip_prefix, strip_suffix, texts,
};

verus! {

/// What a timestamp command comes down to.
#[derive(Clone, Copy, Debug, PartialEq, Eq, Structural)]
pub enum TimestampPlan {
    /// Put the timestamp on the clipboard and paste it at the cursor.
    TextPaste,
    /// Rename the files selected in the window, adding the timestamp.
    RenamePrepend { window: isize },
    /// Copy the files selected in the window under names with the timestamp.
    Duplicate { window: isize },
    /// Rename the files selected in the window, taking the timestamp away.
    RenameRemove { window: isize },
    /// Do nothing.
    Nothing,
}

/// The plan for `action`, where `explorer` is the file manager's window in
/// the foreground, if it is one.
pub open spec fn planned(action: Seq<char>, explorer: Option<isize>) -> Option<TimestampPlan> {
    if action == "paste"@ {
        Some(
            match explorer {
                Some(window) => TimestampPlan::RenamePrepend { window },
                None => TimestampPlan::TextPaste,
            },
        )
    } else if action == "copy"@ {
        Some(
            match explorer {
                Some(window) => TimestampPlan::Duplicate { window },
                None => TimestampPlan::Nothing,
            },
        )
    } else if action == "cut"@ {
        Some(
            match explorer {
                Some(window) => TimestampPlan::RenameRemove { window },
                None => TimestampPlan::Nothing,
            },
        )
    } else {
        None
    }
}

/// Decides what the timestamp command `action` does: `paste` writes text or
/// renames files, `copy` duplicates files, `cut` takes the timestamp off
/// file names; any other action is refused.
pub fn run(action: &str, explorer: Option<isize>) -> (plan: Result<TimestampPlan, CommandError>)
    ensures
        match plan {
            Ok(p) => planned(action@, explorer) == Some(p),
            Err(e) => planned(action@, explorer) is None && e is UnknownAction
                && e->UnknownAction_action@ == action@,
        },
{
    if str_eq(action, "paste") {
        Ok(
            match explorer {
                Some(window) => TimestampPlan::RenamePrepend { window },
                None => TimestampPlan::TextPaste,
            },
        )
    } else if str_eq(action, "copy") {
        Ok(
            match explorer {
                Some(window) => TimestampPlan::Duplicate { window },
                None => TimestampPlan::Nothing,
            },
        )
    } else if str_eq(action, "cut") {
        Ok(
            match explorer {
                Some(window) => TimestampPlan::RenameRemove { window },
                None => TimestampPlan::Nothing,
            },
        )
    } else {
        Err(CommandError::UnknownAction { action: String::from_str(action) })
    }
}

/// The last component of a path, taken apart: what stands before its
/// extension, and the extension without its dot.
#[derive(Debug, Clone, PartialEq, Eq)]
pub struct FileName {
    pub stem: Option<String>,
    pub extension: Option<String>,
}

/// The extension as it is written in a file name: with its dot, or nothing.
pub open spec fn suffix_of(extension: Option<String>) -> Seq<char> {
    match extension {
        Some(e) => "."@ + e@,
        None => Seq::empty(),
    }
}

/// The stem `stem` with the timestamp: behind it where `position` is `after`,
/// in front of it otherwise, with an underscore between the two.
pub open spec fn stamped_stem(stem: Seq<char>, timestamp: Seq<char>, position: Seq<char>) -> Seq<
    char,
> {
    if position == "after"@ {
        stem + "_"@ + timestamp
    } else {
        timestamp + "_"@ + stem
    }
}

/// The stem `stem` without the timestamp, where it carries it on the side
/// that `position` names.
pub open spec fn unstamped_stem(
    stem: Seq<char>,
    timestamp: Seq<char>,
    position: Seq<char>,
) -> Option<Seq<char>> {
    if position == "after"@ {
        if ends_with(stem, "_"@ + timestamp) {
            Some(stem.take(stem.len() - ("_"@ + timestamp).len()))
        } else {
            None
        }
    } else {
        if begins_with(stem, timestamp + "_"@) {
            Some(stem.skip((timestamp + "_"@).len() as int))
        } else {
            None
        }
    }
}

/// The name of `file` with the timestamp added. A file without a stem gets
/// the timestamp and the underscore alone.
pub open spec fn stamped_name(file: FileName, timestamp: Seq<char>, position: Seq<char>) -> Seq<
    char,
> {
    stamped_stem(
        match file.stem {
            Some(s) => s@,
            None => Seq::empty(),
        },
        timestamp,
        position,
    ) + suffix_of(file.extension)
}

/// The name of `file` with the timestamp taken away, where it has a stem that
/// carries it.
pub open spec fn unstamped_name(
    file: FileName,
    timestamp: Seq<char>,
    position: Seq<char>,
) -> Option<Seq<char>> {
    match file.stem {
        Some(stem) => match unstamped_stem(stem@, timestamp, position) {
            Some(rest) => Some(rest + suffix_of(file.extension)),
            None => None,
        },
        None => None,
    }
}

/// Taking the timestamp off a stem that it was put on gives the stem back.
pub proof fn unstamp_undoes_stamp(stem: Seq<char>, timestamp: Seq<char>, position: Seq<char>)
    ensures
        unstamped_stem(stamped_stem(stem, timestamp, position), timestamp, position) == Some(
            stem,
        ),
{
    let stamped = stamped_stem(stem, timestamp, position);
    if position == "after"@ {
        let mark = "_"@ + timestamp;
        assert(stamped =~= stem + mark);
        assert(stamped.subrange(stamped.len() - mark.len(), stamped.len() as int) =~= mark);
        assert(stamped.take(stamped.len() - mark.len()) =~= stem);
    } else {
        let mark = timestamp + "_"@;
        assert(stamped =~= mark + stem);
        assert(stamped.subrange(0, mark.len() as int) =~= mark);
        assert(stamped.skip(mark.len() as int) =~= stem);
    }
}

/// The extension as it is written in a file name.
fn suffix(extension: &Option<String>) -> (text: String)
    ensures
        text@ == suffix_of(*extension),
{
    match extension {
        Some(e) => {
            let mut text = String::from_str(".");
            text.append(e.as_str());
            text
        },
        None => String::new(),
    }
}

/// The file name of `src` with the timestamp added on the side that
/// `position` names.
pub fn build_timestamped_path(src: &FileName, timestamp: &str, position: &str) -> (name: String)
    ensures
        name@ == stamped_name(*src, timestamp@, position@),
{
    let stem = match &src.stem {
        Some(s) => s.as_str(),
        None => "",
    };
    proof {
        reveal_strlit("");
        assert(""@ =~= Seq::<char>::empty());
    }
    let ext = suffix(&src.extension);
    let mut name = String::new();
    if str_eq(position, "after") {
        name.append(stem);
        name.append("_");
        name.append(timestamp);
    } else {
        name.append(timestamp);
        name.append("_");
        name.append(stem);
    }
    name.append(ext.as_str());
    assert(name@ =~= stamped_name(*src, timestamp@, position@));
    name
}

/// The file name of `src` with the timestamp taken away, or nothing where
/// the name does not carry it on the side that `position` names.
pub fn build_removed_timestamp_path(src: &FileName, timestamp: &str, position: &str) -> (name:
    Option<String>)
    ensures
        match name {
            Some(n) => unstamped_name(*src, timestamp@, position@) == Some(n@),
            None => unstamped_name(*src, timestamp@, position@) is None,
        },
{
    let stem = match &src.stem {
        Some(s) => s.as_str(),
        None => {
            return None;
        },
    };
    let ext = suffix(&src.extension);
    let rest = if str_eq(position, "after") {
        let mut mark = String::from_str("_");
        mark.append(timestamp);
        strip_suffix(stem, mark.as_str())
    } else {
        let mut mark = String::from_str(timestamp);
        mark.append("_");
        strip_prefix(stem, mark.as_str())
    };
    match rest {
        Some(kept) => {
            let mut name = String::from_str(kept);
            name.append(ext.as_str());
            Some(name)
        },
        None => None,
    }
}

/// The new names of `files`, each with the timestamp added, in order.
pub open spec fn stamped_names(
    files: Seq<FileName>,
    timestamp: Seq<char>,
    position: Seq<char>,
) -> Seq<Seq<char>> {
    Seq::new(files.len(), |i: int| stamped_name(files[i], timestamp, position))
}

/// A file to rename: its place in the selection, and its new name.
#[derive(Debug, Clone, PartialEq, Eq)]
pub struct Rename {
    pub index: usize,
    pub name: String,
}

/// The renames that take the timestamp off the first `upto` of `files`: one
/// for each file that carries it, in order.
pub open spec fn removals(
    files: Seq<FileName>,
    timestamp: Seq<char>,
    position: Seq<char>,
    upto: int,
) -> Seq<(int, Seq<char>)>
    decreases upto,
{
    if upto <= 0 {
        Seq::empty()
    } else {
        let before = removals(files, timestamp, position, upto - 1);
        match unstamped_name(files[upto - 1], timestamp, position) {
            Some(name) => before.push((upto - 1, name)),
            None => before,
        }
    }
}

/// The renames as the contracts see them.
pub open spec fn rename_views(list: Seq<Rename>) -> Seq<(int, Seq<char>)> {
    Seq::new(list.len(), |i: int| (list[i].index as int, list[i].name@))
}

/// The names under which the selected files are renamed so that each carries
/// the timestamp, in the order of the selection.
pub fn explorer_rename_prepend(files: &Vec<FileName>, timestamp: &str, position: &str) -> (names:
    Vec<String>)
    ensures
        texts(names@) == stamped_names(files@, timestamp@, position@),
{
    let mut names: Vec<String> = Vec::new();
    let mut i: usize = 0;
    while i < files.len()
        invariant
            i <= files.len(),
            names@.len() == i,
            forall|j: int|
                0 <= j < i ==> names@[j]@ == stamped_name(files@[j], timestamp@, position@),
        decreases files.len() - i,
    {
        names.push(build_timestamped_path(&files[i], timestamp, position));
        i += 1;
    }
    assert(texts(names@) =~= stamped_names(files@, timestamp@, position@));
    names
}

/// The names under which the selected files are copied so that each copy
/// carries the timestamp, in the order of the selection.
pub fn explorer_duplicate(files: &Vec<FileName>, timestamp: &str, position: &str) -> (names: Vec<
    String,
>)
    ensures
        texts(names@) == stamped_names(files@, timestamp@, position@),
{
    explorer_rename_prepend(files, timestamp, position)
}

/// The renames that take the timestamp off the selected files: one for each
/// file whose name carries it, in the order of the selection. The other files
/// are left alone.
pub fn explorer_rename_remove(files: &Vec<FileName>, timestamp: &str, position: &str) -> (renames:
    Vec<Rename>)
    ensures
        rename_views(renames@) == removals(files@, timestamp@, position@, files@.len() as int),
{
    let mut renames: Vec<Rename> = Vec::new();
    let mut i: usize = 0;
    assert(rename_views(renames@) =~= removals(files@, timestamp@, position@, 0));
    while i < files.len()
        invariant
            i <= files.len(),
            rename_views(renames@) == removals(files@, timestamp@, position@, i as int),
        decreases files.len() - i,
    {
        let ghost before = rename_views(renames@);
        match build_removed_timestamp_path(&files[i], timestamp, position) {
            Some(name) => {
                renames.push(Rename { index: i, name });
                assert(rename_views(renames@) =~= before.push((i as int, name@)));
            },
            None => {},
        }
        i += 1;
    }
    renames
}

/// What the notification says about the files that were handled.
pub open spec fn toast_text(result: Result<Seq<Seq<char>>, Seq<char>>) -> Seq<char> {
    match result {
        Ok(names) => if names.len() == 0 {
            "(no selection)"@
        } else if names.len() == 1 {
            "\u{2713} "@ + names[0]
        } else {
            "\u{2713} "@ + decimal_of(names.len()) + " files"@
        },
        Err(message) => "\u{2717} "@ + message,
    }
}

/// The text of the notification that closes a file operation: the name of
/// the one file handled, the number of files where there were several, or
/// the failure.
pub fn format_toast_result(result: &Result<Vec<String>, String>) -> (text: String)
    ensures
        text@ == toast_text(
            match *result {
                Ok(names) => Ok(texts(names@)),
                Err(message) => Err(message@),
            },
        ),
{
    match result {
        Ok(names) => if names.len() == 0 {
            String::from_str("(no selection)")
        } else if names.len() == 1 {
            let mut text = String::from_str("\u{2713} ");
            text.append(names[0].as_str());
            text
        } else {
            let mut text = String::from_str("\u{2713} ");
            let count = decimal(names.len() as u64);
            text.append(count.as_str());
            text.append(" files");
            text
        },
        Err(message) => {
            let mut text = String::from_str("\u{2717} ");
            text.append(message.as_str());
            text
        },
    }
}

/// A copy of `names`.
fn copy_names(names: &Vec<String>) -> (copy: Vec<String>)
    ensures
        texts(copy@) == texts(names@),
{
    let mut copy: Vec<String> = Vec::new();
    let mut i: usize = 0;
    while i < names.len()
        invariant
            i <= names.len(),
            copy@.len() == i,
            forall|j: int| 0 <= j < i ==> copy@[j]@ == names@[j]@,
        decreases names.len() - i,
    {
        copy.push(names[i].clone());
        i += 1;
    }
    assert(texts(copy@) =~= texts(names@));
    copy
}

/// A window of the file manager, as the shell lists it.
#[derive(Debug, Clone, PartialEq, Eq)]
pub struct ShellWindow {
    /// The window itself.
    pub window: isize,
    /// The top-level window that it belongs to.
    pub root: isize,
    /// The names of the selected files, where the selection can be read.
    pub selection: Option<Vec<String>>,
}

/// The position of the first window in `windows` that is `target` or lies
/// in it, or the length of `windows` where there is none.
pub open spec fn shown_at(windows: Seq<ShellWindow>, target: isize) -> int
    decreases windows.len(),
{
    if windows.len() == 0 || windows[0].window == target || windows[0].root == target {
        0
    } else {
        1 + shown_at(windows.drop_first(), target)
    }
}

/// The files selected in the file manager's window `target`: the selection
/// of the first listed window that is `target` or lies in it; nothing where
/// no such window is listed or its selection cannot be read. Only Windows
/// has such windows.
pub fn get_selected_paths(windows: Option<&Vec<ShellWindow>>, target: isize) -> (files: Result<
    Vec<String>,
    CommandError,
>)
    ensures
        match files {
            Ok(names) => windows is Some && ({
                let list = windows.unwrap()@;
                let at = shown_at(list, target);
                if at < list.len() && list[at].selection is Some {
                    texts(names@) == texts(list[at].selection.unwrap()@)
                } else {
                    names@.len() == 0
                }
            }),
            Err(e) => windows is None && e == CommandError::ExplorerUnsupported,
        },
{
    let list = match windows {
        Some(list) => list,
        None => {
            return Err(CommandError::ExplorerUnsupported);
        },
    };
    let mut i: usize = 0;
    assert(list@.skip(0) =~= list@);
    while i < list.len()
        invariant
            i <= list.len(),
            windows == Some(list),
            shown_at(list@, target) == i + shown_at(list@.skip(i as int), target),
        decreases list.len() - i,
    {
        proof {
            let tail = list@.skip(i as int);
            assert(tail.len() > 0);
            assert(tail[0] == list@[i as int]);
            assert(tail.drop_first() =~= list@.skip(i + 1));
        }
        if list[i].window == target || list[i].root == target {
            return Ok(
                match &list[i].selection {
                    Some(names) => copy_names(names),
                    None => Vec::new(),
                },
            );
        }
        i += 1;
    }
    assert(list@.skip(i as int).len() == 0);
    Ok(Vec::new())
}

} // verus!
