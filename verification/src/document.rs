//! The settings file as a document that keeps its comments and its layout.
//!
//! The document is that of the crate `toml_edit`. A document is known here
//! by the way it was made: the text it was parsed from, and the edits made
//! to it since. Nothing in this file is proved: the contracts say which edit
//! each call makes, and give names to what the crate computes.

use vstd::prelude::*;
use toml_edit::{DocumentMut, InlineTable};
use crate::ordered::pair_position;

verus! {

#[verifier::external_type_specification]
#[verifier::external_body]
pub struct ExDocumentMut(DocumentMut);

#[verifier::external_type_specification]
#[verifier::external_body]
pub struct ExInlineTable(InlineTable);

/// One step in the making of a document.
pub enum Edit {
    /// The document was parsed from this text.
    Parsed(Seq<char>),
    /// The table `section` was created where it was missing, and emptied.
    Cleared(Seq<char>),
    /// The inline table `fields` was put under `name` in the table
    /// `section`.
    Put { section: Seq<char>, name: Seq<char>, fields: Seq<(Seq<char>, Seq<char>)> },
    /// The text `value` was put under `field` in the table `section`.
    Wrote { section: Seq<char>, field: Seq<char>, value: Seq<char> },
}

/// How a document was made: its edits, oldest first. A new document has
/// none.
pub uninterp spec fn history(doc: DocumentMut) -> Seq<Edit>;

/// The text that a document made by `edits` is written as.
pub uninterp spec fn rendering(edits: Seq<Edit>) -> Seq<char>;

/// Whether, in a document made by `edits`, what stands under `section` is a
/// table, or nothing stands there yet.
pub uninterp spec fn holds_table(edits: Seq<Edit>, section: Seq<char>) -> bool;

/// Whether `text` is a document that can be parsed.
pub uninterp spec fn parses(text: Seq<char>) -> bool;

/// The fields of an inline table with their texts, in order.
pub uninterp spec fn inline_fields(table: InlineTable) -> Seq<(Seq<char>, Seq<char>)>;

/// `DocumentMut::from_str`: the document that `text` parses to, where it
/// parses.
#[verifier::external_body]
pub(crate) fn parse(text: &str) -> (doc: Option<DocumentMut>)
    ensures
        doc is Some <==> parses(text@),
        doc is Some ==> history(doc.unwrap()) == seq![Edit::Parsed(text@)],
{
    text.parse::<DocumentMut>().ok()
}

/// `DocumentMut::new`: an empty document.
#[verifier::external_body]
pub(crate) fn new_document() -> (doc: DocumentMut)
    ensures
        history(doc) == Seq::<Edit>::empty(),
{
    DocumentMut::new()
}

/// `Table::entry`, `Entry::or_insert_with`, `Item::as_table_mut` and
/// `Table::clear`: the table under `section` is created where nothing
/// stands there, and emptied. Where something else than a table stands
/// there, nothing happens and the answer is `false`.
#[verifier::external_body]
pub(crate) fn clear_section(doc: &mut DocumentMut, section: &str) -> (done: bool)
    ensures
        done == holds_table(history(*old(doc)), section@),
        history(*final(doc)) == (if done {
            history(*old(doc)).push(Edit::Cleared(section@))
        } else {
            history(*old(doc))
        }),
{
    match doc.entry(section).or_insert_with(toml_edit::table).as_table_mut() {
        Some(table) => {
            table.clear();
            true
        },
        None => false,
    }
}

/// `Table::entry`, `Entry::or_insert_with`, `Item::as_table_mut` and the
/// assignment through `Table::index_mut`: the inline table `fields` is put
/// under `name` in the table under `section`. Where something else than a
/// table stands under `section`, nothing happens and the answer is `false`.
#[verifier::external_body]
pub(crate) fn put_entry(doc: &mut DocumentMut, section: &str, name: &str, fields: InlineTable) -> (done:
    bool)
    ensures
        done == holds_table(history(*old(doc)), section@),
        history(*final(doc)) == (if done {
            history(*old(doc)).push(
                Edit::Put { section: section@, name: name@, fields: inline_fields(fields) },
            )
        } else {
            history(*old(doc))
        }),
{
    match doc.entry(section).or_insert_with(toml_edit::table).as_table_mut() {
        Some(table) => {
            table[name] = toml_edit::value(fields);
            true
        },
        None => false,
    }
}

/// `Table::entry`, `Entry::or_insert_with`, `Item::as_table_mut` and the
/// assignment through `Table::index_mut`: the text `value` is put under
/// `field` in the table under `section`. Where something else than a table
/// stands under `section`, nothing happens and the answer is `false`.
#[verifier::external_body]
pub(crate) fn set_text(doc: &mut DocumentMut, section: &str, field: &str, value: &str) -> (done:
    bool)
    ensures
        done == holds_table(history(*old(doc)), section@),
        history(*final(doc)) == (if done {
            history(*old(doc)).push(
                Edit::Wrote { section: section@, field: field@, value: value@ },
            )
        } else {
            history(*old(doc))
        }),
{
    match doc.entry(section).or_insert_with(toml_edit::table).as_table_mut() {
        Some(table) => {
            table[field] = toml_edit::value(value);
            true
        },
        None => false,
    }
}

/// `DocumentMut::to_string`: the document as text.
#[verifier::external_body]
pub(crate) fn render_document(doc: &DocumentMut) -> (text: String)
    ensures
        text@ == rendering(history(*doc)),
{
    doc.to_string()
}

/// `InlineTable::new`: an inline table without fields.
#[verifier::external_body]
pub(crate) fn inline_new() -> (table: InlineTable)
    ensures
        inline_fields(table) == Seq::<(Seq<char>, Seq<char>)>::empty(),
{
    InlineTable::new()
}

/// `InlineTable::insert` with `Value::from`: the text `value` under `field`.
/// A field that the table has already keeps its place and takes the new
/// text; any other field goes last.
#[verifier::external_body]
pub(crate) fn inline_insert(table: &mut InlineTable, field: &str, value: &str)
    ensures
        inline_fields(*final(table)) == (match pair_position(inline_fields(*old(table)), field@) {
            Some(at) => inline_fields(*old(table)).update(at, (field@, value@)),
            None => inline_fields(*old(table)).push((field@, value@)),
        }),
{
    table.insert(field, toml_edit::Value::from(value));
}

} // verus!
