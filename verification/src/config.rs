//! The entries of the configuration file: search engines, folders,
//! applications and the timestamp format.

use vstd::prelude::*;
use vstd::string::*;

verus! {

/// The keys of the keyboard layer that an entry can be dispatched from.
pub const DISPATCH_KEYS: [&'static str; 15] = [
    "1", "2", "3", "4", "5", "q", "r", "t", "g", "a", "w", "e", "s", "d", "f",
];

/// The text of an optional string, where there is one.
pub open spec fn text_of(value: Option<String>) -> Option<Seq<char>> {
    match value {
        Some(text) => Some(text@),
        None => None,
    }
}

/// The text of an optional string slice, where there is one.
pub open spec fn slice_text_of(value: Option<&str>) -> Option<Seq<char>> {
    match value {
        Some(text) => Some(text@),
        None => None,
    }
}

/// A search engine: its URL template, and the key that dispatches to it.
#[derive(Debug, Clone, PartialEq, Eq)]
pub struct SearchEntry {
    pub key: Option<String>,
    pub url: String,
}

impl SearchEntry {
    /// The URL template.
    pub fn url(&self) -> (url: &str)
        ensures
            url@ == self.url@,
    {
        self.url.as_str()
    }

    /// The key that dispatches to this engine, if one is assigned.
    pub fn dispatch_key(&self) -> (key: Option<&str>)
        ensures
            slice_text_of(key) == text_of(self.key),
    {
        match &self.key {
            Some(key) => Some(key.as_str()),
            None => None,
        }
    }
}

/// A folder: its path, and the key that dispatches to it.
#[derive(Debug, Clone, PartialEq, Eq)]
pub struct FolderEntry {
    pub key: Option<String>,
    pub path: String,
}

impl FolderEntry {
    /// The path of the folder.
    pub fn path(&self) -> (path: &str)
        ensures
            path@ == self.path@,
    {
        self.path.as_str()
    }

    /// The key that dispatches to this folder, if one is assigned.
    pub fn dispatch_key(&self) -> (key: Option<&str>)
        ensures
            slice_text_of(key) == text_of(self.key),
    {
        match &self.key {
            Some(key) => Some(key.as_str()),
            None => None,
        }
    }
}

/// An application: the name of its process, the command that launches it,
/// and the key that dispatches to it.
#[derive(Debug, Clone, PartialEq, Eq)]
pub struct AppEntry {
    pub key: Option<String>,
    pub process: String,
    pub command: Option<String>,
}

impl AppEntry {
    /// The name of the application's process.
    pub fn process(&self) -> (process: &str)
        ensures
            process@ == self.process@,
    {
        self.process.as_str()
    }

    /// The command that launches the application: the one configured, or the
    /// process name where none is.
    pub fn command(&self) -> (command: Option<&str>)
        ensures
            command is Some,
            command.unwrap()@ == (match self.command {
                Some(configured) => configured@,
                None => self.process@,
            }),
    {
        match &self.command {
            Some(configured) => Some(configured.as_str()),
            None => Some(self.process.as_str()),
        }
    }

    /// The key that dispatches to this application, if one is assigned.
    pub fn dispatch_key(&self) -> (key: Option<&str>)
        ensures
            slice_text_of(key) == text_of(self.key),
    {
        match &self.key {
            Some(key) => Some(key.as_str()),
            None => None,
        }
    }
}

/// What a dispatch key stands for.
#[derive(Debug, Clone, PartialEq, Eq)]
pub enum DispatchAction {
    Search { engine: String },
    OpenFolder { target: String },
    SwitchApp { target: String },
}

/// How a timestamp is written, and on which side of a file name it goes.
#[derive(Debug, Clone, PartialEq, Eq)]
pub struct TimestampConfig {
    pub format: String,
    pub position: String,
}

/// The timestamp format used where none is configured.
pub fn default_format() -> (format: String)
    ensures
        format@ == "%Y%m%d"@,
{
    String::from_str("%Y%m%d")
}

/// The timestamp position used where none is configured.
pub fn default_position() -> (position: String)
    ensures
        position@ == "before"@,
{
    String::from_str("before")
}

impl Default for TimestampConfig {
    fn default() -> (config: Self)
        ensures
            config.format@ == "%Y%m%d"@,
            config.position@ == "before"@,
    {
        TimestampConfig { format: default_format(), position: default_position() }
    }
}

} // verus!
