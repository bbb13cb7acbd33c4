//! Validation of a configuration: what is wrong with it, as a list of
//! messages.

use vstd::prelude::*;
use vstd::string::*;
use indexmap::IndexMap;
use crate::config::{AppEntry, FolderEntry, SearchEntry};
use crate::ordered::{
    app_entries, app_rows, app_rows_of, folder_entries, folder_rows, folder_rows_of,
    pair_position, search_entries, search_rows, search_rows_of, text_get, text_insert, text_new,
    text_pairs, Row,
};
use crate::settings::{Config, Section};
use crate::text::{contains, occurs_in, str_eq, texts};

verus! {

/// The placeholder that a URL template must hold.
pub const QUERY_PLACEHOLDER: &'static str = "{query}";

/// What is wrong with a timestamp format: it must not be empty.
pub open spec fn format_errors(format: Seq<char>) -> Seq<Seq<char>> {
    if format.len() == 0 {
        seq!["Timestamp format cannot be empty"@]
    } else {
        Seq::empty()
    }
}

/// What is wrong with a timestamp position: it must be `before` or `after`.
pub open spec fn position_errors(position: Seq<char>) -> Seq<Seq<char>> {
    if position != "before"@ && position != "after"@ {
        seq!["Timestamp position must be \"before\" or \"after\", got \""@ + position + "\""@]
    } else {
        Seq::empty()
    }
}

/// The message for a search engine whose URL lacks the placeholder.
pub open spec fn url_error(name: Seq<char>) -> Seq<char> {
    "Search engine '"@ + name + "' URL must contain {query} placeholder"@
}

/// One message for each search engine whose URL lacks the placeholder, in
/// the order of the entries.
pub open spec fn url_errors(rows: Seq<Row>) -> Seq<Seq<char>>
    decreases rows.len(),
{
    if rows.len() == 0 {
        Seq::empty()
    } else {
        let before = url_errors(rows.drop_last());
        if occurs_in(rows.last().value, QUERY_PLACEHOLDER@) {
            before
        } else {
            before.push(url_error(rows.last().name))
        }
    }
}

/// How an entry called `name` is referred to in a message.
pub open spec fn label_of(section: Section, name: Seq<char>) -> Seq<char> {
    match section {
        Section::Search => "search/"@ + name,
        Section::Folders => "folders/"@ + name,
        Section::Apps => "apps/"@ + name,
    }
}

/// The dispatch keys that the entries of a section claim, each with the
/// label of its entry, in the order of the entries.
pub open spec fn claims_of(rows: Seq<Row>, section: Section) -> Seq<(Seq<char>, Seq<char>)>
    decreases rows.len(),
{
    if rows.len() == 0 {
        Seq::empty()
    } else {
        let before = claims_of(rows.drop_last(), section);
        match rows.last().key {
            Some(key) => before.push((key, label_of(section, rows.last().name))),
            None => before,
        }
    }
}

/// The label of the first entry among `claims` that claims `key`.
pub open spec fn claimer(claims: Seq<(Seq<char>, Seq<char>)>, key: Seq<char>) -> Option<Seq<char>>
    decreases claims.len(),
{
    if claims.len() == 0 {
        None
    } else {
        match claimer(claims.drop_last(), key) {
            Some(label) => Some(label),
            None => if claims.last().0 == key {
                Some(claims.last().1)
            } else {
                None
            },
        }
    }
}

/// The message for a dispatch key that two entries claim.
pub open spec fn duplicate_error(key: Seq<char>, first: Seq<char>, second: Seq<char>) -> Seq<
    char,
> {
    "Dispatch key '"@ + key + "' is used by both '"@ + first + "' and '"@ + second + "'"@
}

/// One message for each claim of a key that an earlier entry claims already:
/// it names the first entry that claimed the key, and the one at hand.
pub open spec fn duplicate_errors(claims: Seq<(Seq<char>, Seq<char>)>) -> Seq<Seq<char>>
    decreases claims.len(),
{
    if claims.len() == 0 {
        Seq::empty()
    } else {
        let before = duplicate_errors(claims.drop_last());
        match claimer(claims.drop_last(), claims.last().0) {
            Some(first) => before.push(duplicate_error(claims.last().0, first, claims.last().1)),
            None => before,
        }
    }
}

/// Everything that is wrong with a configuration: the timestamp format, the
/// timestamp position, the URL templates, then the dispatch keys claimed
/// twice, going through search engines, folders and applications.
pub open spec fn validation_errors(
    format: Seq<char>,
    position: Seq<char>,
    search: Seq<Row>,
    folders: Seq<Row>,
    apps: Seq<Row>,
) -> Seq<Seq<char>> {
    format_errors(format) + position_errors(position) + url_errors(search) + duplicate_errors(
        claims_of(search, Section::Search) + claims_of(folders, Section::Folders) + claims_of(
            apps,
            Section::Apps,
        ),
    )
}

/// The texts of a list of claims.
pub open spec fn claim_texts(list: Seq<(String, String)>) -> Seq<(Seq<char>, Seq<char>)> {
    Seq::new(list.len(), |i: int| (list[i].0@, list[i].1@))
}

/// The label of the entry `name` of `section`.
fn label(section: Section, name: &str) -> (text: String)
    ensures
        text@ == label_of(section, name@),
{
    let mut text = match section {
        Section::Search => String::from_str("search/"),
        Section::Folders => String::from_str("folders/"),
        Section::Apps => String::from_str("apps/"),
    };
    text.append(name);
    text
}

/// Adds the claim of the entry `name` of `section`, where it has a key.
fn claim(claims: &mut Vec<(String, String)>, section: Section, name: &str, key: Option<&str>)
    ensures
        claim_texts(final(claims)@) == (match key {
            Some(k) => claim_texts(old(claims)@).push((k@, label_of(section, name@))),
            None => claim_texts(old(claims)@),
        }),
{
    match key {
        Some(k) => {
            claims.push((String::from_str(k), label(section, name)));
            assert(claim_texts(claims@) =~= claim_texts(old(claims)@).push(
                (k@, label_of(section, name@)),
            ));
        },
        None => {},
    }
}

/// Adds the claims of the search engines.
fn claim_search(claims: &mut Vec<(String, String)>, entries: &Vec<(String, SearchEntry)>)
    ensures
        claim_texts(final(claims)@) == claim_texts(old(claims)@) + claims_of(
            search_rows_of(entries@),
            Section::Search,
        ),
{
    let ghost rows = search_rows_of(entries@);
    let ghost start = claim_texts(claims@);
    let mut i: usize = 0;
    assert(claim_texts(claims@) =~= start + claims_of(rows.take(0), Section::Search));
    while i < entries.len()
        invariant
            i <= entries.len(),
            rows == search_rows_of(entries@),
            claim_texts(claims@) == start + claims_of(rows.take(i as int), Section::Search),
        decreases entries.len() - i,
    {
        claim(claims, Section::Search, entries[i].0.as_str(), entries[i].1.dispatch_key());
        proof {
            let next = rows.take(i + 1);
            assert(next.drop_last() =~= rows.take(i as int));
            assert(next.last() == rows[i as int]);
            assert(claim_texts(claims@) =~= start + claims_of(next, Section::Search));
        }
        i += 1;
    }
    assert(rows.take(i as int) =~= rows);
}

/// Adds the claims of the folders.
fn claim_folders(claims: &mut Vec<(String, String)>, entries: &Vec<(String, FolderEntry)>)
    ensures
        claim_texts(final(claims)@) == claim_texts(old(claims)@) + claims_of(
            folder_rows_of(entries@),
            Section::Folders,
        ),
{
    let ghost rows = folder_rows_of(entries@);
    let ghost start = claim_texts(claims@);
    let mut i: usize = 0;
    assert(claim_texts(claims@) =~= start + claims_of(rows.take(0), Section::Folders));
    while i < entries.len()
        invariant
            i <= entries.len(),
            rows == folder_rows_of(entries@),
            claim_texts(claims@) == start + claims_of(rows.take(i as int), Section::Folders),
        decreases entries.len() - i,
    {
        claim(claims, Section::Folders, entries[i].0.as_str(), entries[i].1.dispatch_key());
        proof {
            let next = rows.take(i + 1);
            assert(next.drop_last() =~= rows.take(i as int));
            assert(next.last() == rows[i as int]);
            assert(claim_texts(claims@) =~= start + claims_of(next, Section::Folders));
        }
        i += 1;
    }
    assert(rows.take(i as int) =~= rows);
}

/// Adds the claims of the applications.
fn claim_apps(claims: &mut Vec<(String, String)>, entries: &Vec<(String, AppEntry)>)
    ensures
        claim_texts(final(claims)@) == claim_texts(old(claims)@) + claims_of(
            app_rows_of(entries@),
            Section::Apps,
        ),
{
    let ghost rows = app_rows_of(entries@);
    let ghost start = claim_texts(claims@);
    let mut i: usize = 0;
    assert(claim_texts(claims@) =~= start + claims_of(rows.take(0), Section::Apps));
    while i < entries.len()
        invariant
            i <= entries.len(),
            rows == app_rows_of(entries@),
            claim_texts(claims@) == start + claims_of(rows.take(i as int), Section::Apps),
        decreases entries.len() - i,
    {
        claim(claims, Section::Apps, entries[i].0.as_str(), entries[i].1.dispatch_key());
        proof {
            let next = rows.take(i + 1);
            assert(next.drop_last() =~= rows.take(i as int));
            assert(next.last() == rows[i as int]);
            assert(claim_texts(claims@) =~= start + claims_of(next, Section::Apps));
        }
        i += 1;
    }
    assert(rows.take(i as int) =~= rows);
}

/// Adds one message for each search engine whose URL lacks the placeholder.
fn check_urls(errors: &mut Vec<String>, entries: &Vec<(String, SearchEntry)>)
    ensures
        texts(final(errors)@) == texts(old(errors)@) + url_errors(search_rows_of(entries@)),
{
    let ghost rows = search_rows_of(entries@);
    let ghost start = texts(errors@);
    let mut i: usize = 0;
    assert(texts(errors@) =~= start + url_errors(rows.take(0)));
    while i < entries.len()
        invariant
            i <= entries.len(),
            rows == search_rows_of(entries@),
            texts(errors@) == start + url_errors(rows.take(i as int)),
        decreases entries.len() - i,
    {
        let ghost before = texts(errors@);
        if !contains(entries[i].1.url(), QUERY_PLACEHOLDER) {
            let mut message = String::from_str("Search engine '");
            message.append(entries[i].0.as_str());
            message.append("' URL must contain {query} placeholder");
            errors.push(message);
            assert(texts(errors@) =~= before.push(url_error(rows[i as int].name)));
        }
        proof {
            let next = rows.take(i + 1);
            assert(next.drop_last() =~= rows.take(i as int));
            assert(next.last() == rows[i as int]);
            assert(texts(errors@) =~= start + url_errors(next));
        }
        i += 1;
    }
    assert(rows.take(i as int) =~= rows);
}

/// `used` holds, for each key claimed among `claims`, the label of the first
/// entry that claimed it, and nothing else.
pub open spec fn records(used: Seq<(Seq<char>, Seq<char>)>, claims: Seq<(Seq<char>, Seq<char>)>) -> bool {
    &&& forall|i: int| 0 <= i < used.len() ==> claimer(claims, #[trigger] used[i].0) == Some(used[i].1)
    &&& forall|key: Seq<char>| #[trigger]
        claimer(claims, key) is Some ==> exists|i: int| 0 <= i < used.len() && used[i].0 == key
}

/// Adds one message for each claim of a key that was claimed before.
fn check_duplicates(errors: &mut Vec<String>, claims: &Vec<(String, String)>)
    ensures
        texts(final(errors)@) == texts(old(errors)@) + duplicate_errors(claim_texts(claims@)),
{
    let ghost all = claim_texts(claims@);
    let ghost start = texts(errors@);
    let mut used: IndexMap<String, String> = text_new();
    let mut i: usize = 0;
    assert(texts(errors@) =~= start + duplicate_errors(all.take(0)));
    assert(records(text_pairs(used), all.take(0)));
    while i < claims.len()
        invariant
            i <= claims.len(),
            all == claim_texts(claims@),
            texts(errors@) == start + duplicate_errors(all.take(i as int)),
            records(text_pairs(used), all.take(i as int)),
        decreases claims.len() - i,
    {
        let ghost before = texts(errors@);
        let ghost seen = all.take(i as int);
        let ghost next = all.take(i + 1);
        let ghost pairs = text_pairs(used);
        let key = claims[i].0.as_str();
        let label = claims[i].1.as_str();
        proof {
            assert(next.drop_last() =~= seen);
            assert(next.last() == (key@, label@));
        }
        let first = match text_get(&used, key) {
            Some(found) => {
                proof {
                    let at = choose|at: int|
                        0 <= at < pairs.len() && pairs[at] == (key@, found@);
                    assert(claimer(seen, pairs[at].0) == Some(pairs[at].1));
                }
                Some(found.clone())
            },
            None => None,
        };
        match first {
            Some(found) => {
                assert(claimer(seen, key@) == Some(found@));
                let mut message = String::from_str("Dispatch key '");
                message.append(key);
                message.append("' is used by both '");
                message.append(found.as_str());
                message.append("' and '");
                message.append(label);
                message.append("'");
                errors.push(message);
                assert(texts(errors@) =~= before.push(duplicate_error(key@, found@, label@)));
                assert(records(pairs, next)) by {
                    assert forall|k: Seq<char>| claimer(next, k) == claimer(seen, k) by {}
                }
            },
            None => {
                assert(claimer(seen, key@) is None);
                assert(pair_position(pairs, key@) is None);
                text_insert(&mut used, String::from_str(key), String::from_str(label));
                assert(records(text_pairs(used), next)) by {
                    let grown = text_pairs(used);
                    assert(grown == pairs.push((key@, label@)));
                    assert forall|j: int| 0 <= j < grown.len() implies claimer(
                        next,
                        #[trigger] grown[j].0,
                    ) == Some(grown[j].1) by {
                        if j < pairs.len() {
                            assert(grown[j] == pairs[j]);
                            assert(claimer(seen, pairs[j].0) == Some(pairs[j].1));
                        }
                    }
                    assert forall|k: Seq<char>| #[trigger] claimer(next, k) is Some implies exists|
                        j: int,
                    | 0 <= j < grown.len() && grown[j].0 == k by {
                        if claimer(seen, k) is Some {
                            let j = choose|j: int| 0 <= j < pairs.len() && pairs[j].0 == k;
                            assert(grown[j].0 == k);
                        } else {
                            assert(grown[pairs.len() as int].0 == k);
                        }
                    }
                }
            },
        }
        assert(texts(errors@) =~= start + duplicate_errors(next));
        i += 1;
    }
    assert(all.take(i as int) =~= all);
}

/// Everything that is wrong with `config`, as messages; none where it is
/// valid.
pub fn validate(config: &Config) -> (errors: Vec<String>)
    ensures
        texts(errors@) == validation_errors(
            config.timestamp.format@,
            config.timestamp.position@,
            search_rows(config.search),
            folder_rows(config.folders),
            app_rows(config.apps),
        ),
{
    let mut errors: Vec<String> = Vec::new();
    assert(texts(errors@) =~= Seq::empty());
    if config.timestamp.format.as_str().is_empty() {
        errors.push(String::from_str("Timestamp format cannot be empty"));
    }
    assert(texts(errors@) =~= format_errors(config.timestamp.format@));
    let position = config.timestamp.position.as_str();
    if !str_eq(position, "before") && !str_eq(position, "after") {
        let mut message = String::from_str(
            "Timestamp position must be \"before\" or \"after\", got \"",
        );
        message.append(position);
        message.append("\"");
        errors.push(message);
    }
    assert(texts(errors@) =~= format_errors(config.timestamp.format@) + position_errors(
        config.timestamp.position@,
    ));
    let search = search_entries(&config.search);
    check_urls(&mut errors, &search);
    let mut claims: Vec<(String, String)> = Vec::new();
    assert(claim_texts(claims@) =~= Seq::empty());
    claim_search(&mut claims, &search);
    let folders = folder_entries(&config.folders);
    claim_folders(&mut claims, &folders);
    let apps = app_entries(&config.apps);
    claim_apps(&mut claims, &apps);
    assert(claim_texts(claims@) =~= claims_of(search_rows(config.search), Section::Search)
        + claims_of(folder_rows(config.folders), Section::Folders) + claims_of(
        app_rows(config.apps),
        Section::Apps,
    ));
    check_duplicates(&mut errors, &claims);
    errors
}

} // verus!
