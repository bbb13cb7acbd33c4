//! The permission for the input device that the helper needs on Linux.

use vstd::prelude::*;
use vstd::string::*;
use crate::text::{push_word, texts};

verus! {

/// Why the permission could not be set up.
#[derive(Clone, Copy, Debug, PartialEq, Eq, Structural)]
pub enum UinputError {
    /// The privileged helper could not be run.
    NotRun,
    /// The user turned the request down, or the script failed.
    Cancelled,
}

impl UinputError {
    /// The message shown to the user.
    pub fn message(&self) -> (text: &'static str)
        ensures
            text@ == (match *self {
                UinputError::NotRun => "pkexec の実行に失敗しました"@,
                UinputError::Cancelled => "設定がキャンセルされました"@,
            }),
    {
        match self {
            UinputError::NotRun => "pkexec の実行に失敗しました",
            UinputError::Cancelled => "設定がキャンセルされました",
        }
    }
}

/// The script that creates the group, adds `user` to the groups and
/// registers the device rule.
pub open spec fn setup_script_of(user: Seq<char>) -> Seq<char> {
    "\ngroupadd -f uinput\nusermod -aG input "@ + user + "\nusermod -aG uinput "@ + user
        + "\necho 'KERNEL==\"uinput\", MODE=\"0660\", GROUP=\"uinput\", OPTIONS+=\"static_node=uinput\"' \\\n  > /etc/udev/rules.d/99-uinput.rules\nudevadm control --reload-rules && udevadm trigger\n"@
}

/// The arguments with which `pkexec` sets up the permission for `user`.
pub fn pkexec_args(user: &str) -> (args: Vec<String>)
    ensures
        texts(args@) == seq!["bash"@, "-c"@, setup_script_of(user@)],
{
    let mut script = String::from_str("\ngroupadd -f uinput\nusermod -aG input ");
    script.append(user);
    script.append("\nusermod -aG uinput ");
    script.append(user);
    script.append(
        "\necho 'KERNEL==\"uinput\", MODE=\"0660\", GROUP=\"uinput\", OPTIONS+=\"static_node=uinput\"' \\\n  > /etc/udev/rules.d/99-uinput.rules\nudevadm control --reload-rules && udevadm trigger\n",
    );
    let mut args: Vec<String> = Vec::new();
    assert(texts(args@) =~= Seq::empty());
    push_word(&mut args, "bash");
    push_word(&mut args, "-c");
    push_word(&mut args, script.as_str());
    assert(texts(args@) =~= seq!["bash"@, "-c"@, setup_script_of(user@)]);
    args
}

/// The result of the setup, given whether `pkexec` could be run and whether
/// it ended with success.
pub fn setup_uinput_with_pkexec(ran: bool, success: bool) -> (result: Result<(), UinputError>)
    ensures
        result == (if !ran {
            Err::<(), UinputError>(UinputError::NotRun)
        } else if success {
            Ok(())
        } else {
            Err(UinputError::Cancelled)
        }),
{
    if !ran {
        Err(UinputError::NotRun)
    } else if success {
        Ok(())
    } else {
        Err(UinputError::Cancelled)
    }
}

/// The lines that tell the user about the missing permission: none where
/// the device can be written to.
pub fn print_uinput_guide(writable: bool) -> (lines: Vec<&'static str>)
    ensures
        writable ==> lines@.len() == 0,
        !writable ==> lines@.len() == 4 && lines@[0]@ == ""@ && lines@[1]@
            == "[kanata] uinput デバイスにアクセスできません。"@ && lines@[2]@
            == "[kanata] GUI からシステム設定ダイアログが表示されます。"@ && lines@[3]@ == ""@,
{
    let mut lines: Vec<&'static str> = Vec::new();
    if !writable {
        lines.push("");
        lines.push("[kanata] uinput デバイスにアクセスできません。");
        lines.push("[kanata] GUI からシステム設定ダイアログが表示されます。");
        lines.push("");
    }
    lines
}

} // verus!
