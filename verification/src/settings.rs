//! The configuration as a whole: its sections, the defaults, and the lookups
//! by name and by dispatch key.

use vstd::prelude::*;
use vstd::string::*;
use indexmap::IndexMap;
use crate::config::{AppEntry, DispatchAction, FolderEntry, SearchEntry, TimestampConfig};
use crate::ordered::{
    app_entries, app_get, app_new, app_row, app_rows, app_rows_of, folder_entries, folder_get,
    folder_new, folder_row, folder_rows, folder_rows_of, search_entries, search_get, search_insert,
    search_new, search_row, search_rows, search_rows_of, text_get, text_pairs, Row,
};
use crate::text::str_eq;

verus! {

/// A section of the configuration that holds named entries.
#[derive(Clone, Copy, Debug, PartialEq, Eq, Structural)]
pub enum Section {
    Search,
    Folders,
    Apps,
}

/// A name that the configuration does not define.
#[derive(Debug, Clone, PartialEq, Eq)]
pub struct NotDefined {
    /// What kind of thing was asked for, as the message names it.
    pub label: String,
    /// The name that was asked for.
    pub name: String,
}

/// The message for a name that is not defined.
pub open spec fn not_defined_message(label: Seq<char>, name: Seq<char>) -> Seq<char> {
    label + " '"@ + name + "' is not defined in config.toml"@
}

impl NotDefined {
    /// The message shown to the user.
    pub fn message(&self) -> (text: String)
        ensures
            text@ == not_defined_message(self.label@, self.name@),
    {
        let mut text = self.label.clone();
        text.append(" '");
        text.append(self.name.as_str());
        text.append("' is not defined in config.toml");
        text
    }
}

/// The configuration.
#[derive(Debug)]
pub struct Config {
    pub search: IndexMap<String, SearchEntry>,
    pub folders: IndexMap<String, FolderEntry>,
    pub apps: IndexMap<String, AppEntry>,
    pub timestamp: TimestampConfig,
}

/// The position of the first row that `key` dispatches to, where there is
/// one.
pub open spec fn first_bound(rows: Seq<Row>, key: Seq<char>) -> Option<int> {
    if exists|i: int| 0 <= i < rows.len() && rows[i].key == Some(key) {
        Some(choose|i: int| 0 <= i < rows.len() && rows[i].key == Some(key) && forall|j: int|
            0 <= j < i ==> rows[j].key != Some(key))
    } else {
        None
    }
}

/// The first row that `key` dispatches to, where there is one, has that key
/// and no row before it has.
pub proof fn first_bound_is_first(rows: Seq<Row>, key: Seq<char>)
    ensures
        match first_bound(rows, key) {
            Some(i) => 0 <= i < rows.len() && rows[i].key == Some(key) && forall|j: int|
                0 <= j < i ==> rows[j].key != Some(key),
            None => forall|i: int| 0 <= i < rows.len() ==> rows[i].key != Some(key),
        },
{
    if exists|i: int| 0 <= i < rows.len() && rows[i].key == Some(key) {
        let k = choose|i: int| 0 <= i < rows.len() && rows[i].key == Some(key);
        least_bound(rows, key, k);
    }
}

/// Below every row with the key there is a first one.
proof fn least_bound(rows: Seq<Row>, key: Seq<char>, k: int)
    requires
        0 <= k < rows.len(),
        rows[k].key == Some(key),
    ensures
        exists|i: int|
            0 <= i < rows.len() && rows[i].key == Some(key) && forall|j: int|
                0 <= j < i ==> rows[j].key != Some(key),
    decreases k,
{
    if exists|j: int| 0 <= j < k && rows[j].key == Some(key) {
        let j = choose|j: int| 0 <= j < k && rows[j].key == Some(key);
        least_bound(rows, key, j);
    } else {
        assert(0 <= k < rows.len() && rows[k].key == Some(key) && forall|j: int|
            0 <= j < k ==> rows[j].key != Some(key));
    }
}

/// What `key` dispatches to: the first search engine bound to it, else the
/// first folder, else the first application; the section and the entry's
/// name.
pub open spec fn dispatched(
    search: Seq<Row>,
    folders: Seq<Row>,
    apps: Seq<Row>,
    key: Seq<char>,
) -> Option<(Section, Seq<char>)> {
    match first_bound(search, key) {
        Some(i) => Some((Section::Search, search[i].name)),
        None => match first_bound(folders, key) {
            Some(i) => Some((Section::Folders, folders[i].name)),
            None => match first_bound(apps, key) {
                Some(i) => Some((Section::Apps, apps[i].name)),
                None => None,
            },
        },
    }
}

impl DispatchAction {
    /// The section and the name of the entry that the action goes to.
    pub open spec fn view(&self) -> (Section, Seq<char>) {
        match self {
            DispatchAction::Search { engine } => (Section::Search, engine@),
            DispatchAction::OpenFolder { target } => (Section::Folders, target@),
            DispatchAction::SwitchApp { target } => (Section::Apps, target@),
        }
    }
}

/// The name of the first entry whose dispatch key is `key`.
fn bound_search(entries: &Vec<(String, SearchEntry)>, key: &str) -> (name: Option<String>)
    ensures
        match name {
            Some(n) => first_bound(search_rows_of(entries@), key@) is Some && search_rows_of(
                entries@,
            )[first_bound(search_rows_of(entries@), key@).unwrap()].name == n@,
            None => first_bound(search_rows_of(entries@), key@) is None,
        },
{
    let ghost rows = search_rows_of(entries@);
    proof {
        first_bound_is_first(rows, key@);
    }
    let mut i: usize = 0;
    while i < entries.len()
        invariant
            i <= entries.len(),
            rows == search_rows_of(entries@),
            forall|j: int| 0 <= j < i ==> rows[j].key != Some(key@),
        decreases entries.len() - i,
    {
        let hit = match entries[i].1.dispatch_key() {
            Some(bound) => str_eq(bound, key),
            None => false,
        };
        if hit {
            assert(rows[i as int].key == Some(key@));
            return Some(entries[i].0.clone());
        }
        assert(rows[i as int].key != Some(key@));
        i += 1;
    }
    None
}

/// The name of the first entry whose dispatch key is `key`.
fn bound_folder(entries: &Vec<(String, FolderEntry)>, key: &str) -> (name: Option<String>)
    ensures
        match name {
            Some(n) => first_bound(folder_rows_of(entries@), key@) is Some && folder_rows_of(
                entries@,
            )[first_bound(folder_rows_of(entries@), key@).unwrap()].name == n@,
            None => first_bound(folder_rows_of(entries@), key@) is None,
        },
{
    let ghost rows = folder_rows_of(entries@);
    proof {
        first_bound_is_first(rows, key@);
    }
    let mut i: usize = 0;
    while i < entries.len()
        invariant
            i <= entries.len(),
            rows == folder_rows_of(entries@),
            forall|j: int| 0 <= j < i ==> rows[j].key != Some(key@),
        decreases entries.len() - i,
    {
        let hit = match entries[i].1.dispatch_key() {
            Some(bound) => str_eq(bound, key),
            None => false,
        };
        if hit {
            assert(rows[i as int].key == Some(key@));
            return Some(entries[i].0.clone());
        }
        assert(rows[i as int].key != Some(key@));
        i += 1;
    }
    None
}

/// The name of the first entry whose dispatch key is `key`.
fn bound_app(entries: &Vec<(String, AppEntry)>, key: &str) -> (name: Option<String>)
    ensures
        match name {
            Some(n) => first_bound(app_rows_of(entries@), key@) is Some && app_rows_of(
                entries@,
            )[first_bound(app_rows_of(entries@), key@).unwrap()].name == n@,
            None => first_bound(app_rows_of(entries@), key@) is None,
        },
{
    let ghost rows = app_rows_of(entries@);
    proof {
        first_bound_is_first(rows, key@);
    }
    let mut i: usize = 0;
    while i < entries.len()
        invariant
            i <= entries.len(),
            rows == app_rows_of(entries@),
            forall|j: int| 0 <= j < i ==> rows[j].key != Some(key@),
        decreases entries.len() - i,
    {
        let hit = match entries[i].1.dispatch_key() {
            Some(bound) => str_eq(bound, key),
            None => false,
        };
        if hit {
            assert(rows[i as int].key == Some(key@));
            return Some(entries[i].0.clone());
        }
        assert(rows[i as int].key != Some(key@));
        i += 1;
    }
    None
}

impl Config {
    /// What the dispatch key `key` stands for: search engines are looked
    /// through first, then folders, then applications, each in the order of
    /// the file.
    pub fn dispatch_lookup(&self, key: &str) -> (action: Option<DispatchAction>)
        ensures
            match action {
                Some(found) => dispatched(
                    search_rows(self.search),
                    folder_rows(self.folders),
                    app_rows(self.apps),
                    key@,
                ) == Some(found@),
                None => dispatched(
                    search_rows(self.search),
                    folder_rows(self.folders),
                    app_rows(self.apps),
                    key@,
                ) is None,
            },
    {
        let search = search_entries(&self.search);
        if let Some(engine) = bound_search(&search, key) {
            return Some(DispatchAction::Search { engine });
        }
        let folders = folder_entries(&self.folders);
        if let Some(target) = bound_folder(&folders, key) {
            return Some(DispatchAction::OpenFolder { target });
        }
        let apps = app_entries(&self.apps);
        if let Some(target) = bound_app(&apps, key) {
            return Some(DispatchAction::SwitchApp { target });
        }
        None
    }
}

/// The search engines of a configuration that defines none: `google`.
pub fn default_search_engines() -> (engines: IndexMap<String, SearchEntry>)
    ensures
        search_rows(engines) == seq![
            Row {
                name: "google"@,
                key: None,
                value: "https://www.google.com/search?q={query}"@,
                command: None,
            },
        ],
{
    let mut engines = search_new();
    search_insert(
        &mut engines,
        String::from_str("google"),
        SearchEntry { key: None, url: String::from_str("https://www.google.com/search?q={query}") },
    );
    engines
}

/// The configuration used where no file is found.
pub fn default_config() -> (config: Config)
    ensures
        search_rows(config.search) == seq![
            Row {
                name: "google"@,
                key: None,
                value: "https://www.google.com/search?q={query}"@,
                command: None,
            },
        ],
        folder_rows(config.folders) == Seq::<Row>::empty(),
        app_rows(config.apps) == Seq::<Row>::empty(),
        config.timestamp.format@ == "%Y%m%d"@,
        config.timestamp.position@ == "before"@,
{
    Config {
        search: default_search_engines(),
        folders: folder_new(),
        apps: app_new(),
        timestamp: TimestampConfig::default(),
    }
}

/// The URL template of the search engine `engine`.
pub fn get_search_url<'a>(search: &'a IndexMap<String, SearchEntry>, engine: &str) -> (url: Result<
    &'a str,
    NotDefined,
>)
    ensures
        match url {
            Ok(template) => exists|i: int|
                0 <= i < search_rows(*search).len() && search_rows(*search)[i].name == engine@
                    && search_rows(*search)[i].value == template@,
            Err(e) => e.label@ == "Search engine"@ && e.name@ == engine@ && forall|i: int|
                0 <= i < search_rows(*search).len() ==> search_rows(*search)[i].name != engine@,
        },
{
    match search_get(search, engine) {
        Some(entry) => Ok(entry.url()),
        None => Err(
            NotDefined { label: String::from_str("Search engine"), name: String::from_str(engine) },
        ),
    }
}

/// The path of the folder `target`.
pub fn get_folder_path<'a>(folders: &'a IndexMap<String, FolderEntry>, target: &str) -> (path:
    Result<&'a str, NotDefined>)
    ensures
        match path {
            Ok(found) => exists|i: int|
                0 <= i < folder_rows(*folders).len() && folder_rows(*folders)[i].name == target@
                    && folder_rows(*folders)[i].value == found@,
            Err(e) => e.label@ == "Folder"@ && e.name@ == target@ && forall|i: int|
                0 <= i < folder_rows(*folders).len() ==> folder_rows(*folders)[i].name != target@,
        },
{
    match folder_get(folders, target) {
        Some(entry) => Ok(entry.path()),
        None => Err(
            NotDefined { label: String::from_str("Folder"), name: String::from_str(target) },
        ),
    }
}

/// The application `target`.
pub fn get_app<'a>(apps: &'a IndexMap<String, AppEntry>, target: &str) -> (app: Result<
    &'a AppEntry,
    NotDefined,
>)
    ensures
        match app {
            Ok(found) => exists|i: int|
                0 <= i < app_rows(*apps).len() && app_rows(*apps)[i] == app_row(target@, *found),
            Err(e) => e.label@ == "App"@ && e.name@ == target@ && forall|i: int|
                0 <= i < app_rows(*apps).len() ==> app_rows(*apps)[i].name != target@,
        },
{
    match app_get(apps, target) {
        Some(entry) => Ok(entry),
        None => Err(NotDefined { label: String::from_str("App"), name: String::from_str(target) }),
    }
}

/// The value under `key` in a section of plain texts; `label` says in the
/// error what the section holds.
pub fn get_value<'a>(map: &'a IndexMap<String, String>, key: &str, label: &str) -> (value: Result<
    &'a str,
    NotDefined,
>)
    ensures
        match value {
            Ok(found) => exists|i: int|
                0 <= i < text_pairs(*map).len() && text_pairs(*map)[i] == (key@, found@),
            Err(e) => e.label@ == label@ && e.name@ == key@ && forall|i: int|
                0 <= i < text_pairs(*map).len() ==> text_pairs(*map)[i].0 != key@,
        },
{
    match text_get(map, key) {
        Some(found) => Ok(found.as_str()),
        None => Err(NotDefined { label: String::from_str(label), name: String::from_str(key) }),
    }
}

} // verus!
