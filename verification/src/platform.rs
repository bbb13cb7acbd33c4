//! The platforms that the helper runs on, and what differs between them.

use vstd::prelude::*;
use crate::text::str_eq;

verus! {

/// The operating system of the running application.
#[derive(Clone, Copy, Debug, PartialEq, Eq, Structural)]
pub enum Platform {
    Windows,
    Linux,
    MacOs,
}

impl Platform {
    /// The text that separates the entries of the `PATH` variable.
    pub fn path_separator(self) -> (sep: &'static str)
        ensures
            sep@ == Self::path_separator_of(self),
    {
        match self {
            Platform::Windows => ";",
            _ => ":",
        }
    }

    /// The separator of `PATH` entries on each platform.
    pub open spec fn path_separator_of(platform: Platform) -> Seq<char> {
        if platform == Platform::Windows {
            ";"@
        } else {
            ":"@
        }
    }

    /// Whether an operating-system job object can guard child processes.
    pub fn has_resource_guard(self) -> (has: bool)
        ensures
            has == (self == Platform::Windows),
    {
        matches!(self, Platform::Windows)
    }
}

/// Whether the session runs under Wayland: the variable `WAYLAND_DISPLAY` is
/// set, or `XDG_SESSION_TYPE` is `wayland`.
pub fn is_wayland_session(wayland_display: Option<&str>, session_type: Option<&str>) -> (wayland:
    bool)
    ensures
        wayland == (wayland_display is Some || (session_type is Some && session_type.unwrap()@
            == "wayland"@)),
{
    match wayland_display {
        Some(_) => true,
        None => match session_type {
            Some(kind) => str_eq(kind, "wayland"),
            None => false,
        },
    }
}

} // verus!
