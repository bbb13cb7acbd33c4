//! What the user is looking at: whether the window in the foreground belongs
//! to the file manager.

use vstd::prelude::*;
use crate::switch_app::{process_views, ProcessInfo};
use crate::text::{eq_ignore_case, lowered};

verus! {

/// The executable of the file manager.
pub const EXPLORER: &'static str = "explorer.exe";

/// The name of the first process in `list` with the identifier `pid`.
pub open spec fn owner_name(list: Seq<(Seq<char>, u32)>, pid: u32) -> Option<Seq<char>>
    decreases list.len(),
{
    if list.len() == 0 {
        None
    } else if list[0].1 == pid {
        Some(list[0].0)
    } else {
        owner_name(list.drop_first(), pid)
    }
}

/// Whether the window of the process `pid` is the file manager's: the
/// process is known, and the first entry for it in `list` is called
/// `explorer.exe`, in whatever case.
pub open spec fn is_explorer(list: Seq<(Seq<char>, u32)>, pid: u32) -> bool {
    pid != 0 && owner_name(list, pid) is Some && lowered(owner_name(list, pid).unwrap())
        == lowered(EXPLORER@)
}

/// The window in the foreground, where it belongs to the file manager.
///
/// `foreground` is that window and the process that owns it, where the
/// platform can tell; `processes` are the running processes.
pub fn get_foreground_explorer_hwnd(
    foreground: Option<(isize, u32)>,
    processes: &Vec<ProcessInfo>,
) -> (window: Option<isize>)
    ensures
        window == (match foreground {
            Some((hwnd, pid)) => if is_explorer(process_views(processes@), pid) {
                Some(hwnd)
            } else {
                None
            },
            None => None,
        }),
{
    let (hwnd, pid) = match foreground {
        Some(pair) => pair,
        None => {
            return None;
        },
    };
    if pid == 0 {
        return None;
    }
    let ghost all = process_views(processes@);
    let mut i: usize = 0;
    assert(all.skip(0) =~= all);
    while i < processes.len()
        invariant
            i <= processes.len(),
            all == process_views(processes@),
            foreground == Some((hwnd, pid)),
            pid != 0,
            owner_name(all, pid) == owner_name(all.skip(i as int), pid),
        decreases processes.len() - i,
    {
        proof {
            let tail = all.skip(i as int);
            assert(tail.len() > 0);
            assert(tail[0] == (processes@[i as int].name@, processes@[i as int].pid));
            assert(tail.drop_first() =~= all.skip(i + 1));
        }
        if processes[i].pid == pid {
            assert(owner_name(all, pid) == Some(processes@[i as int].name@));
            if eq_ignore_case(processes[i].name.as_str(), EXPLORER) {
                return Some(hwnd);
            } else {
                return None;
            }
        }
        i += 1;
    }
    assert(all.skip(i as int).len() == 0);
    assert(owner_name(all, pid) is None);
    None
}

} // verus!
