//! Failures that the controller reports to its caller.

use vstd::prelude::*;

verus! {

/// A file that the path resolver looks for.
#[derive(Clone, Copy, Debug, PartialEq, Eq, Structural)]
pub enum Artifact {
    /// The helper executable.
    Executable,
    /// The helper's configuration file.
    Config,
    /// The directory holding the sibling helper binary.
    HelperDir,
}

/// The step of a stop that failed.
#[derive(Clone, Copy, Debug, PartialEq, Eq, Structural)]
pub enum StopStage {
    /// The termination signal could not be sent.
    Signal,
    /// The exit could not be confirmed.
    Wait,
}

/// Every way in which a lifecycle operation can fail.
#[derive(Clone, Copy, Debug, PartialEq, Eq, Structural)]
pub enum ControlError {
    /// No candidate location holds the artifact.
    NotFound(Artifact),
    /// A start was asked for while a live process is held, or while another
    /// start is still in flight.
    AlreadyRunning,
    /// The operating system refused to spawn the process.
    LaunchFailed,
    /// The process was spawned and had exited by the end of the grace period.
    EarlyExit,
    /// The termination signal could not be sent, or the exit not confirmed.
    StopFailed(StopStage),
}

impl ControlError {
    /// The message shown to the user for this failure.
    pub fn message(&self) -> (text: &'static str)
        ensures
            text@ == Self::message_of(*self),
    {
        match self {
            ControlError::NotFound(Artifact::Executable) =>
                "キー割当の起動に必要なファイルが見つかりません。\n再インストールしてください。",
            ControlError::NotFound(Artifact::Config) =>
                "キー割当の設定ファイルが見つかりません。\n再インストールしてください。",
            ControlError::NotFound(Artifact::HelperDir) =>
                "キー割当の補助プログラムが見つかりません。\n再インストールしてください。",
            ControlError::AlreadyRunning => "キー割当は既に実行中です",
            ControlError::LaunchFailed =>
                "キー割当の起動に失敗しました。\n再インストールしてください。",
            ControlError::EarlyExit => "キー割当の起動に失敗しました。",
            ControlError::StopFailed(StopStage::Signal) => "キー割当の停止に失敗しました",
            ControlError::StopFailed(StopStage::Wait) => "キー割当の終了待機に失敗しました",
        }
    }

    /// The text of `message` for each failure.
    pub open spec fn message_of(e: ControlError) -> Seq<char> {
        match e {
            ControlError::NotFound(Artifact::Executable) =>
                "キー割当の起動に必要なファイルが見つかりません。\n再インストールしてください。"@,
            ControlError::NotFound(Artifact::Config) =>
                "キー割当の設定ファイルが見つかりません。\n再インストールしてください。"@,
            ControlError::NotFound(Artifact::HelperDir) =>
                "キー割当の補助プログラムが見つかりません。\n再インストールしてください。"@,
            ControlError::AlreadyRunning => "キー割当は既に実行中です"@,
            ControlError::LaunchFailed =>
                "キー割当の起動に失敗しました。\n再インストールしてください。"@,
            ControlError::EarlyExit => "キー割当の起動に失敗しました。"@,
            ControlError::StopFailed(StopStage::Signal) => "キー割当の停止に失敗しました"@,
            ControlError::StopFailed(StopStage::Wait) => "キー割当の終了待機に失敗しました"@,
        }
    }
}

} // verus!
