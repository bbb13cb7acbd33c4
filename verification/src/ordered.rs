//! The insertion-ordered maps that hold the configuration's sections.
//!
//! The maps are those of the crate `indexmap`. What they hold is named here,
//! and each method that the library calls is given a contract over those
//! names. Nothing in this file is proved: the contracts restate what the
//! crate's documentation and source say.

use vstd::prelude::*;
use indexmap::IndexMap;
use crate::config::{text_of, AppEntry, FolderEntry, SearchEntry};

verus! {

#[verifier::external_type_specification]
#[verifier::external_body]
#[verifier::reject_recursive_types(K)]
#[verifier::reject_recursive_types(V)]
#[verifier::reject_recursive_types(S)]
pub struct ExIndexMap<K, V, S>(IndexMap<K, V, S>);

/// One entry of a section, as the contracts see it: its name, its dispatch
/// key, its value (a URL template, a path or a process name) and, for an
/// application, its launch command.
pub struct Row {
    pub name: Seq<char>,
    pub key: Option<Seq<char>>,
    pub value: Seq<char>,
    pub command: Option<Seq<char>>,
}

/// The entries of a map of search engines, in the map's order.
pub uninterp spec fn search_rows(map: IndexMap<String, SearchEntry>) -> Seq<Row>;

/// The entries of a map of folders, in the map's order.
pub uninterp spec fn folder_rows(map: IndexMap<String, FolderEntry>) -> Seq<Row>;

/// The entries of a map of applications, in the map's order.
pub uninterp spec fn app_rows(map: IndexMap<String, AppEntry>) -> Seq<Row>;

/// The pairs of a map from text to text, in the map's order.
pub uninterp spec fn text_pairs(map: IndexMap<String, String>) -> Seq<(Seq<char>, Seq<char>)>;

/// The row of the search engine `entry` under `name`.
pub open spec fn search_row(name: Seq<char>, entry: SearchEntry) -> Row {
    Row { name, key: text_of(entry.key), value: entry.url@, command: None }
}

/// The row of the folder `entry` under `name`.
pub open spec fn folder_row(name: Seq<char>, entry: FolderEntry) -> Row {
    Row { name, key: text_of(entry.key), value: entry.path@, command: None }
}

/// The row of the application `entry` under `name`.
pub open spec fn app_row(name: Seq<char>, entry: AppEntry) -> Row {
    Row { name, key: text_of(entry.key), value: entry.process@, command: text_of(entry.command) }
}

/// No two rows have the same name.
pub open spec fn distinct_names(rows: Seq<Row>) -> bool {
    forall|i: int, j: int|
        0 <= i < rows.len() && 0 <= j < rows.len() && rows[i].name == rows[j].name ==> i == j
}

/// The rows of search engines handed out under their names.
pub open spec fn search_rows_of(entries: Seq<(String, SearchEntry)>) -> Seq<Row> {
    Seq::new(entries.len(), |i: int| search_row(entries[i].0@, entries[i].1))
}

/// The rows of folders handed out under their names.
pub open spec fn folder_rows_of(entries: Seq<(String, FolderEntry)>) -> Seq<Row> {
    Seq::new(entries.len(), |i: int| folder_row(entries[i].0@, entries[i].1))
}

/// The rows of applications handed out under their names.
pub open spec fn app_rows_of(entries: Seq<(String, AppEntry)>) -> Seq<Row> {
    Seq::new(entries.len(), |i: int| app_row(entries[i].0@, entries[i].1))
}

/// The position of the pair whose first part is `name`, where there is one.
pub open spec fn pair_position(pairs: Seq<(Seq<char>, Seq<char>)>, name: Seq<char>) -> Option<
    int,
> {
    if exists|i: int| 0 <= i < pairs.len() && pairs[i].0 == name {
        Some(choose|i: int| 0 <= i < pairs.len() && pairs[i].0 == name)
    } else {
        None
    }
}

/// The position of the row called `name`, where there is one.
pub open spec fn position_of(rows: Seq<Row>, name: Seq<char>) -> Option<int> {
    if exists|i: int| 0 <= i < rows.len() && rows[i].name == name {
        Some(choose|i: int| 0 <= i < rows.len() && rows[i].name == name)
    } else {
        None
    }
}

/// `IndexMap::new`, for search engines: a map that holds nothing.
#[verifier::external_body]
pub(crate) fn search_new() -> (map: IndexMap<String, SearchEntry>)
    ensures
        search_rows(map) == Seq::<Row>::empty(),
{
    IndexMap::new()
}

/// `IndexMap::insert`, for search engines: an entry whose name the map holds already
/// keeps its place and takes the new value; any other entry goes last. No
/// other entry changes.
#[verifier::external_body]
pub(crate) fn search_insert(map: &mut IndexMap<String, SearchEntry>, name: String, entry: SearchEntry)
    ensures
        search_rows(*final(map)) == (match position_of(search_rows(*old(map)), name@) {
            Some(at) => search_rows(*old(map)).update(at, search_row(name@, entry)),
            None => search_rows(*old(map)).push(search_row(name@, entry)),
        }),
{
    map.insert(name, entry);
}

/// `IndexMap::iter`, for search engines: the entries in the map's order, each under
/// its name. A map holds no name twice.
#[verifier::external_body]
pub(crate) fn search_entries(map: &IndexMap<String, SearchEntry>) -> (entries: Vec<(String, SearchEntry)>)
    ensures
        search_rows_of(entries@) == search_rows(*map),
        distinct_names(search_rows_of(entries@)),
{
    map.iter().map(|(name, entry)| (name.clone(), entry.clone())).collect()
}

/// `IndexMap::get`, for search engines: the entry called `name`, where the map holds
/// one.
#[verifier::external_body]
pub(crate) fn search_get<'a>(map: &'a IndexMap<String, SearchEntry>, name: &str) -> (entry: Option<
    &'a SearchEntry,
>)
    ensures
        match entry {
            Some(found) => exists|i: int|
                0 <= i < search_rows(*map).len() && search_rows(*map)[i] == search_row(name@, *found),
            None => forall|i: int| 0 <= i < search_rows(*map).len() ==> search_rows(*map)[i].name != name@,
        },
{
    map.get(name)
}

/// `IndexMap::new`, for folders: a map that holds nothing.
#[verifier::external_body]
pub(crate) fn folder_new() -> (map: IndexMap<String, FolderEntry>)
    ensures
        folder_rows(map) == Seq::<Row>::empty(),
{
    IndexMap::new()
}

/// `IndexMap::iter`, for folders: the entries in the map's order, each under
/// its name. A map holds no name twice.
#[verifier::external_body]
pub(crate) fn folder_entries(map: &IndexMap<String, FolderEntry>) -> (entries: Vec<(String, FolderEntry)>)
    ensures
        folder_rows_of(entries@) == folder_rows(*map),
        distinct_names(folder_rows_of(entries@)),
{
    map.iter().map(|(name, entry)| (name.clone(), entry.clone())).collect()
}

/// `IndexMap::get`, for folders: the entry called `name`, where the map holds
/// one.
#[verifier::external_body]
pub(crate) fn folder_get<'a>(map: &'a IndexMap<String, FolderEntry>, name: &str) -> (entry: Option<
    &'a FolderEntry,
>)
    ensures
        match entry {
            Some(found) => exists|i: int|
                0 <= i < folder_rows(*map).len() && folder_rows(*map)[i] == folder_row(name@, *found),
            None => forall|i: int| 0 <= i < folder_rows(*map).len() ==> folder_rows(*map)[i].name != name@,
        },
{
    map.get(name)
}

/// `IndexMap::new`, for applications: a map that holds nothing.
#[verifier::external_body]
pub(crate) fn app_new() -> (map: IndexMap<String, AppEntry>)
    ensures
        app_rows(map) == Seq::<Row>::empty(),
{
    IndexMap::new()
}

/// `IndexMap::iter`, for applications: the entries in the map's order, each under
/// its name. A map holds no name twice.
#[verifier::external_body]
pub(crate) fn app_entries(map: &IndexMap<String, AppEntry>) -> (entries: Vec<(String, AppEntry)>)
    ensures
        app_rows_of(entries@) == app_rows(*map),
        distinct_names(app_rows_of(entries@)),
{
    map.iter().map(|(name, entry)| (name.clone(), entry.clone())).collect()
}

/// `IndexMap::get`, for applications: the entry called `name`, where the map holds
/// one.
#[verifier::external_body]
pub(crate) fn app_get<'a>(map: &'a IndexMap<String, AppEntry>, name: &str) -> (entry: Option<
    &'a AppEntry,
>)
    ensures
        match entry {
            Some(found) => exists|i: int|
                0 <= i < app_rows(*map).len() && app_rows(*map)[i] == app_row(name@, *found),
            None => forall|i: int| 0 <= i < app_rows(*map).len() ==> app_rows(*map)[i].name != name@,
        },
{
    map.get(name)
}

/// `IndexMap::new`, for texts: a map that holds nothing.
#[verifier::external_body]
pub(crate) fn text_new() -> (map: IndexMap<String, String>)
    ensures
        text_pairs(map) == Seq::<(Seq<char>, Seq<char>)>::empty(),
{
    IndexMap::new()
}

/// `IndexMap::insert`, for texts: a pair whose name the map holds already
/// keeps its place and takes the new value; any other pair goes last. No
/// other pair changes.
#[verifier::external_body]
pub(crate) fn text_insert(map: &mut IndexMap<String, String>, name: String, value: String)
    ensures
        text_pairs(*final(map)) == (match pair_position(text_pairs(*old(map)), name@) {
            Some(at) => text_pairs(*old(map)).update(at, (name@, value@)),
            None => text_pairs(*old(map)).push((name@, value@)),
        }),
{
    map.insert(name, value);
}

/// `IndexMap::get`, for texts: the value under `name`, where the map holds
/// one.
#[verifier::external_body]
pub(crate) fn text_get<'a>(map: &'a IndexMap<String, String>, name: &str) -> (value: Option<
    &'a String,
>)
    ensures
        match value {
            Some(found) => exists|i: int|
                0 <= i < text_pairs(*map).len() && text_pairs(*map)[i] == (name@, found@),
            None => forall|i: int| 0 <= i < text_pairs(*map).len() ==> text_pairs(*map)[i].0 != name@,
        },
{
    map.get(name)
}

} // verus!
