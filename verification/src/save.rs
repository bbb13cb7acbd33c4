//! Writing the configuration back to the settings file, with the comments
//! and the layout of the file kept.

use vstd::prelude::*;
use vstd::string::*;
use toml_edit::DocumentMut;
use crate::config::{AppEntry, FolderEntry, SearchEntry};
use crate::document::{
    clear_section, history, holds_table, inline_fields, inline_insert, inline_new, new_document,
    parse, parses, put_entry, render_document, rendering, set_text, Edit,
};
use crate::ordered::{
    app_entries, app_rows, app_rows_of, folder_entries, folder_rows, folder_rows_of,
    search_entries, search_rows, search_rows_of, Row,
};
use crate::settings::Config;
use crate::sorting::{positions, sort_keys, sort_order, stable_order, EntryKey, SortKey};

verus! {

/// A table of the settings file.
#[derive(Clone, Copy, Debug, PartialEq, Eq, Structural)]
pub enum TableName {
    Search,
    Folders,
    Apps,
    Timestamp,
}

impl TableName {
    /// The name of the table in the file.
    pub open spec fn text(self) -> Seq<char> {
        match self {
            TableName::Search => "search"@,
            TableName::Folders => "folders"@,
            TableName::Apps => "apps"@,
            TableName::Timestamp => "timestamp"@,
        }
    }

    /// The name of the table in the file.
    pub fn name(self) -> (name: &'static str)
        ensures
            name@ == self.text(),
    {
        match self {
            TableName::Search => "search",
            TableName::Folders => "folders",
            TableName::Apps => "apps",
            TableName::Timestamp => "timestamp",
        }
    }

    /// The field that holds an entry's value in the table.
    pub open spec fn field_text(self) -> Seq<char> {
        match self {
            TableName::Search => "url"@,
            TableName::Folders => "path"@,
            TableName::Apps => "process"@,
            TableName::Timestamp => "format"@,
        }
    }

    /// The field that holds an entry's value in the table.
    pub fn field(self) -> (name: &'static str)
        ensures
            name@ == self.field_text(),
    {
        match self {
            TableName::Search => "url",
            TableName::Folders => "path",
            TableName::Apps => "process",
            TableName::Timestamp => "format",
        }
    }
}

/// Why the configuration could not be written: the file holds something
/// else than a table under the name of one.
#[derive(Clone, Copy, Debug, PartialEq, Eq, Structural)]
pub struct SaveError {
    pub table: TableName,
}

impl SaveError {
    /// The message shown to the user.
    pub fn message(&self) -> (text: String)
        ensures
            text@ == self.table.text() + " section is not a table"@,
    {
        let mut text = String::from_str(self.table.name());
        text.append(" section is not a table");
        text
    }
}

/// One entry as it is written: its name, its dispatch key, its value and
/// its launch command.
#[derive(Debug, Clone, PartialEq, Eq)]
pub struct Item {
    pub name: String,
    pub key: Option<String>,
    pub value: String,
    pub command: Option<String>,
}

impl Item {
    /// The entry as the contracts see it.
    pub open spec fn view(&self) -> Row {
        Row {
            name: self.name@,
            key: match self.key {
                Some(k) => Some(k@),
                None => None,
            },
            value: self.value@,
            command: match self.command {
                Some(c) => Some(c@),
                None => None,
            },
        }
    }
}

/// The entries as the contracts see them.
pub open spec fn rows_of(items: Seq<Item>) -> Seq<Row> {
    Seq::new(items.len(), |i: int| items[i]@)
}

/// What an entry is sorted by: its dispatch key where it has one, and its
/// name where it has none.
pub open spec fn row_key(row: Row) -> SortKey {
    match row.key {
        Some(key) => SortKey { keyless: false, text: vstd::utf8::encode_utf8(key) },
        None => SortKey { keyless: true, text: vstd::utf8::encode_utf8(row.name) },
    }
}

/// What the entries are sorted by.
pub open spec fn row_keys(rows: Seq<Row>) -> Seq<SortKey> {
    Seq::new(rows.len(), |i: int| row_key(rows[i]))
}

/// The fields of an entry as they are written: the dispatch key where there
/// is one, the value under `field`, and the launch command where there is
/// one.
pub open spec fn entry_fields(row: Row, field: Seq<char>) -> Seq<(Seq<char>, Seq<char>)> {
    (match row.key {
        Some(key) => seq![("key"@, key)],
        None => Seq::empty(),
    }) + seq![(field, row.value)] + (match row.command {
        Some(command) => seq![("command"@, command)],
        None => Seq::empty(),
    })
}

/// The edits that write the entries `rows` to `table`: the table is
/// emptied, then each entry is put into it, in the written order.
pub open spec fn section_edits(rows: Seq<Row>, table: TableName) -> Seq<Edit> {
    let order = stable_order(row_keys(rows), rows.len() as int);
    seq![Edit::Cleared(table.text())] + Seq::new(
        rows.len(),
        |i: int|
            Edit::Put {
                section: table.text(),
                name: rows[order[i]].name,
                fields: entry_fields(rows[order[i]], table.field_text()),
            },
    )
}

/// The edits that write the timestamp settings.
pub open spec fn timestamp_edits(format: Seq<char>, position: Seq<char>) -> Seq<Edit> {
    seq![
        Edit::Wrote { section: "timestamp"@, field: "format"@, value: format },
        Edit::Wrote { section: "timestamp"@, field: "position"@, value: position },
    ]
}

/// The table that an edit goes to.
pub open spec fn table_of(edit: Edit) -> Seq<char> {
    match edit {
        Edit::Parsed(_) => Seq::empty(),
        Edit::Cleared(section) => section,
        Edit::Put { section, .. } => section,
        Edit::Wrote { section, .. } => section,
    }
}

/// The making of a document once `edits` were made to one made by `made`,
/// one after the other; or the table of the first edit that found something
/// else than a table in its place.
pub open spec fn applied(made: Seq<Edit>, edits: Seq<Edit>) -> Result<Seq<Edit>, Seq<char>>
    decreases edits.len(),
{
    if edits.len() == 0 {
        Ok(made)
    } else if holds_table(made, table_of(edits[0])) {
        applied(made.push(edits[0]), edits.drop_first())
    } else {
        Err(table_of(edits[0]))
    }
}

/// Edits made in two runs come to the same as edits made in one.
pub proof fn applied_in_turn(made: Seq<Edit>, first: Seq<Edit>, second: Seq<Edit>)
    ensures
        applied(made, first + second) == (match applied(made, first) {
            Ok(then) => applied(then, second),
            Err(section) => Err(section),
        }),
    decreases first.len(),
{
    if first.len() == 0 {
        assert(first + second =~= second);
    } else {
        let all = first + second;
        assert(all[0] == first[0]);
        assert(all.drop_first() =~= first.drop_first() + second);
        if holds_table(made, table_of(first[0])) {
            applied_in_turn(made.push(first[0]), first.drop_first(), second);
        }
    }
}

/// The document that the file is written from: the one that `existing`
/// parses to, or an empty one where there is no text or it does not parse.
pub open spec fn opened(existing: Option<&str>) -> Seq<Edit> {
    match existing {
        Some(text) => if parses(text@) {
            seq![Edit::Parsed(text@)]
        } else {
            Seq::empty()
        },
        None => Seq::empty(),
    }
}

/// Everything that is written: search engines, folders and applications,
/// each table emptied and filled in the written order, then the timestamp
/// settings.
pub open spec fn save_edits(
    search: Seq<Row>,
    folders: Seq<Row>,
    apps: Seq<Row>,
    format: Seq<char>,
    position: Seq<char>,
) -> Seq<Edit> {
    section_edits(search, TableName::Search) + section_edits(folders, TableName::Folders)
        + section_edits(apps, TableName::Apps) + timestamp_edits(format, position)
}

/// The entries of the search engines, as they are written.
fn search_items(entries: &Vec<(String, SearchEntry)>) -> (items: Vec<Item>)
    ensures
        rows_of(items@) == search_rows_of(entries@),
{
    let mut items: Vec<Item> = Vec::new();
    let mut i: usize = 0;
    while i < entries.len()
        invariant
            i <= entries.len(),
            items@.len() == i,
            forall|j: int| 0 <= j < i ==> items@[j]@ == search_rows_of(entries@)[j],
        decreases entries.len() - i,
    {
        let entry = &entries[i].1;
        items.push(
            Item {
                name: entries[i].0.clone(),
                key: match &entry.key {
                    Some(k) => Some(k.clone()),
                    None => None,
                },
                value: entry.url.clone(),
                command: None,
            },
        );
        i += 1;
    }
    assert(rows_of(items@) =~= search_rows_of(entries@));
    items
}

/// The entries of the folders, as they are written.
fn folder_items(entries: &Vec<(String, FolderEntry)>) -> (items: Vec<Item>)
    ensures
        rows_of(items@) == folder_rows_of(entries@),
{
    let mut items: Vec<Item> = Vec::new();
    let mut i: usize = 0;
    while i < entries.len()
        invariant
            i <= entries.len(),
            items@.len() == i,
            forall|j: int| 0 <= j < i ==> items@[j]@ == folder_rows_of(entries@)[j],
        decreases entries.len() - i,
    {
        let entry = &entries[i].1;
        items.push(
            Item {
                name: entries[i].0.clone(),
                key: match &entry.key {
                    Some(k) => Some(k.clone()),
                    None => None,
                },
                value: entry.path.clone(),
                command: None,
            },
        );
        i += 1;
    }
    assert(rows_of(items@) =~= folder_rows_of(entries@));
    items
}

/// The entries of the applications, as they are written.
fn app_items(entries: &Vec<(String, AppEntry)>) -> (items: Vec<Item>)
    ensures
        rows_of(items@) == app_rows_of(entries@),
{
    let mut items: Vec<Item> = Vec::new();
    let mut i: usize = 0;
    while i < entries.len()
        invariant
            i <= entries.len(),
            items@.len() == i,
            forall|j: int| 0 <= j < i ==> items@[j]@ == app_rows_of(entries@)[j],
        decreases entries.len() - i,
    {
        let entry = &entries[i].1;
        items.push(
            Item {
                name: entries[i].0.clone(),
                key: match &entry.key {
                    Some(k) => Some(k.clone()),
                    None => None,
                },
                value: entry.process.clone(),
                command: match &entry.command {
                    Some(c) => Some(c.clone()),
                    None => None,
                },
            },
        );
        i += 1;
    }
    assert(rows_of(items@) =~= app_rows_of(entries@));
    items
}

/// What the entries are sorted by.
fn keys_of(items: &Vec<Item>) -> (keys: Vec<EntryKey>)
    ensures
        sort_keys(keys@) == row_keys(rows_of(items@)),
{
    let mut keys: Vec<EntryKey> = Vec::new();
    let mut i: usize = 0;
    while i < items.len()
        invariant
            i <= items.len(),
            keys@.len() == i,
            forall|j: int|
                0 <= j < i ==> (SortKey {
                    keyless: keys@[j].keyless,
                    text: vstd::utf8::encode_utf8(keys@[j].text@),
                }) == row_key(items@[j]@),
        decreases items.len() - i,
    {
        let key = match &items[i].key {
            Some(k) => EntryKey { keyless: false, text: k.clone() },
            None => EntryKey { keyless: true, text: items[i].name.clone() },
        };
        keys.push(key);
        i += 1;
    }
    assert(sort_keys(keys@) =~= row_keys(rows_of(items@)));
    keys
}

/// The field of an entry's value is neither `key` nor `command`, and these
/// two differ.
proof fn field_names_differ(table: TableName)
    requires
        table != TableName::Timestamp,
    ensures
        table.field_text() != "key"@,
        table.field_text() != "command"@,
        "key"@ != "command"@,
{
    reveal_strlit("key");
    reveal_strlit("command");
    reveal_strlit("url");
    reveal_strlit("path");
    reveal_strlit("process");
    assert("key"@.len() == 3 && "command"@.len() == 7);
    assert("url"@[0] == 'u' && "key"@[0] == 'k');
    assert("path"@.len() == 4 && "process"@.len() == 7);
    assert("process"@[0] == 'p' && "command"@[0] == 'c' && "url"@.len() == 3);
}

/// Puts `item` into `table`.
fn write_item(doc: &mut DocumentMut, table: TableName, item: &Item) -> (done: bool)
    requires
        table != TableName::Timestamp,
    ensures
        done == holds_table(history(*old(doc)), table.text()),
        history(*final(doc)) == (if done {
            history(*old(doc)).push(
                Edit::Put {
                    section: table.text(),
                    name: item@.name,
                    fields: entry_fields(item@, table.field_text()),
                },
            )
        } else {
            history(*old(doc))
        }),
{
    proof {
        field_names_differ(table);
    }
    let mut fields = inline_new();
    match &item.key {
        Some(key) => {
            inline_insert(&mut fields, "key", key.as_str());
        },
        None => {},
    }
    let ghost keyed = inline_fields(fields);
    assert(forall|j: int| 0 <= j < keyed.len() ==> keyed[j].0 == "key"@);
    assert(forall|j: int| 0 <= j < keyed.len() ==> keyed[j].0 != table.field_text());
    inline_insert(&mut fields, table.field(), item.value.as_str());
    let ghost valued = inline_fields(fields);
    assert(valued == keyed.push((table.field_text(), item@.value)));
    match &item.command {
        Some(command) => {
            assert(forall|j: int| 0 <= j < valued.len() ==> valued[j].0 != "command"@);
            inline_insert(&mut fields, "command", command.as_str());
        },
        None => {},
    }
    assert(inline_fields(fields) =~= entry_fields(item@, table.field_text()));
    put_entry(doc, table.name(), item.name.as_str(), fields)
}

/// Empties `table` and fills it with `items`, in the written order.
fn write_section(doc: &mut DocumentMut, table: TableName, items: &Vec<Item>) -> (done: bool)
    requires
        table != TableName::Timestamp,
    ensures
        match applied(history(*old(doc)), section_edits(rows_of(items@), table)) {
            Ok(made) => done && history(*final(doc)) == made,
            Err(section) => !done && section == table.text(),
        },
{
    let ghost rows = rows_of(items@);
    let ghost edits = section_edits(rows, table);
    let ghost start = history(*doc);
    let keys = keys_of(items);
    let order = sort_order(&keys);
    proof {
        crate::sorting::stable_order_sorts(row_keys(rows), rows.len() as int);
    }
    let ghost written = stable_order(row_keys(rows), rows.len() as int);
    assert(sort_keys(keys@).len() == row_keys(rows).len());
    assert(keys@.len() == rows.len());
    assert(positions(order@).len() == order@.len());
    assert(edits.len() == rows.len() + 1);
    assert(edits[0] == Edit::Cleared(table.text()));
    assert(table_of(edits[0]) == table.text());
    if !clear_section(doc, table.name()) {
        return false;
    }
    assert(edits.drop_first() =~= edits.skip(1));
    assert(applied(start, edits) == applied(start.push(edits[0]), edits.drop_first()));
    let mut i: usize = 0;
    while i < order.len()
        invariant
            i <= order.len(),
            order@.len() == items@.len(),
            rows == rows_of(items@),
            edits == section_edits(rows, table),
            edits.len() == rows.len() + 1,
            written == stable_order(row_keys(rows), rows.len() as int),
            positions(order@) == written,
            crate::sorting::sorts(row_keys(rows), written, rows.len() as int),
            table != TableName::Timestamp,
            start == history(*old(doc)),
            applied(start, edits) == applied(history(*doc), edits.skip(i + 1)),
        decreases order.len() - i,
    {
        let ghost rest = edits.skip(i + 1);
        let ghost made = history(*doc);
        proof {
            assert(positions(order@)[i as int] == order@[i as int]);
            assert(0 <= written[i as int] < rows.len());
            assert(rest.len() > 0);
            assert(rest[0] == edits[i + 1]);
            assert(rest.drop_first() =~= edits.skip(i + 2));
            assert(rows[written[i as int]] == items@[order@[i as int] as int]@);
            assert(table_of(rest[0]) == table.text());
        }
        if !write_item(doc, table, &items[order[i]]) {
            assert(applied(made, rest) == Err::<Seq<Edit>, Seq<char>>(table.text()));
            return false;
        }
        assert(applied(made, rest) == applied(made.push(rest[0]), rest.drop_first()));
        i += 1;
    }
    assert(edits.skip(i + 1).len() == 0);
    true
}

/// The text of the settings file that holds `config`.
///
/// `existing` is the text of the file as it is, if there is one; what it
/// holds beside the four tables of the configuration is kept. The entries of
/// each table are written with those that have a dispatch key first, by key,
/// and the others behind them, by name.
pub fn save(existing: Option<&str>, config: &Config) -> (text: Result<String, SaveError>)
    ensures
        match applied(
            opened(existing),
            save_edits(
                search_rows(config.search),
                folder_rows(config.folders),
                app_rows(config.apps),
                config.timestamp.format@,
                config.timestamp.position@,
            ),
        ) {
            Ok(made) => text is Ok && text.unwrap()@ == rendering(made),
            Err(section) => text is Err && text->Err_0.table.text() == section,
        },
{
    let mut doc = match existing {
        Some(text) => match parse(text) {
            Some(doc) => doc,
            None => new_document(),
        },
        None => new_document(),
    };
    let ghost start = history(doc);
    let ghost first = section_edits(search_rows(config.search), TableName::Search);
    let ghost second = section_edits(folder_rows(config.folders), TableName::Folders);
    let ghost third = section_edits(app_rows(config.apps), TableName::Apps);
    let ghost last = timestamp_edits(config.timestamp.format@, config.timestamp.position@);
    proof {
        applied_in_turn(start, first + second + third, last);
        applied_in_turn(start, first + second, third);
        applied_in_turn(start, first, second);
    }
    assert(start == opened(existing));
    let search = search_items(&search_entries(&config.search));
    if !write_section(&mut doc, TableName::Search, &search) {
        return Err(SaveError { table: TableName::Search });
    }
    assert(applied(start, first) == Ok::<Seq<Edit>, Seq<char>>(history(doc)));
    let folders = folder_items(&folder_entries(&config.folders));
    if !write_section(&mut doc, TableName::Folders, &folders) {
        return Err(SaveError { table: TableName::Folders });
    }
    assert(applied(start, first + second) == Ok::<Seq<Edit>, Seq<char>>(history(doc)));
    let apps = app_items(&app_entries(&config.apps));
    if !write_section(&mut doc, TableName::Apps, &apps) {
        return Err(SaveError { table: TableName::Apps });
    }
    assert(applied(start, first + second + third) == Ok::<Seq<Edit>, Seq<char>>(history(doc)));
    let ghost filled = history(doc);
    proof {
        assert(last[0] == Edit::Wrote {
            section: "timestamp"@,
            field: "format"@,
            value: config.timestamp.format@,
        });
        assert(last.drop_first()[0] == Edit::Wrote {
            section: "timestamp"@,
            field: "position"@,
            value: config.timestamp.position@,
        });
        assert(last.drop_first().drop_first().len() == 0);
    }
    if !set_text(&mut doc, "timestamp", "format", config.timestamp.format.as_str()) {
        assert(applied(filled, last) == Err::<Seq<Edit>, Seq<char>>("timestamp"@));
        return Err(SaveError { table: TableName::Timestamp });
    }
    let ghost half = history(doc);
    assert(applied(filled, last) == applied(half, last.drop_first()));
    if !set_text(&mut doc, "timestamp", "position", config.timestamp.position.as_str()) {
        assert(applied(half, last.drop_first()) == Err::<Seq<Edit>, Seq<char>>("timestamp"@));
        return Err(SaveError { table: TableName::Timestamp });
    }
    assert(applied(half, last.drop_first()) == applied(
        history(doc),
        last.drop_first().drop_first(),
    ));
    assert(applied(filled, last) == Ok::<Seq<Edit>, Seq<char>>(history(doc)));
    Ok(render_document(&doc))
}

} // verus!
