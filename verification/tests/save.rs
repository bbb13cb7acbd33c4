use indexmap::IndexMap;
use muhenkan_switch::config::{AppEntry, FolderEntry, SearchEntry, TimestampConfig};
use muhenkan_switch::save::{save, SaveError, TableName};
use muhenkan_switch::settings::{default_config, Config};
use muhenkan_switch::sorting::{sort_order, text_lt, EntryKey};
use toml_edit::DocumentMut;

fn search(key: Option<&str>, url: &str) -> SearchEntry {
    SearchEntry { key: key.map(|k| k.to_string()), url: url.to_string() }
}

fn empty_config() -> Config {
    Config {
        search: IndexMap::new(),
        folders: IndexMap::new(),
        apps: IndexMap::new(),
        timestamp: TimestampConfig::default(),
    }
}

fn names_in(text: &str, section: &str) -> Vec<String> {
    let doc: DocumentMut = text.parse().unwrap();
    doc[section].as_table().unwrap().iter().map(|(name, _)| name.to_string()).collect()
}

fn field(text: &str, section: &str, name: &str, field: &str) -> Option<String> {
    let doc: DocumentMut = text.parse().unwrap();
    doc[section][name].get(field).and_then(|v| v.as_str()).map(|s| s.to_string())
}

#[test]
fn test_roundtrip_save_load_detailed() {
    let mut config = empty_config();
    config.search.insert(
        "google".to_string(),
        search(Some("g"), "https://www.google.com/search?q={query}"),
    );
    config.folders.insert(
        "documents".to_string(),
        FolderEntry { key: Some("1".to_string()), path: "~/Documents".to_string() },
    );
    config.apps.insert(
        "editor".to_string(),
        AppEntry {
            key: Some("a".to_string()),
            process: "Code".to_string(),
            command: Some("code".to_string()),
        },
    );

    let text = save(None, &config).unwrap();

    // Verify search
    assert_eq!(
        field(&text, "search", "google", "url").as_deref(),
        Some("https://www.google.com/search?q={query}")
    );
    assert_eq!(field(&text, "search", "google", "key").as_deref(), Some("g"));

    // Verify folders
    assert_eq!(field(&text, "folders", "documents", "path").as_deref(), Some("~/Documents"));
    assert_eq!(field(&text, "folders", "documents", "key").as_deref(), Some("1"));

    // Verify apps
    assert_eq!(field(&text, "apps", "editor", "process").as_deref(), Some("Code"));
    assert_eq!(field(&text, "apps", "editor", "command").as_deref(), Some("code"));
    assert_eq!(field(&text, "apps", "editor", "key").as_deref(), Some("a"));

    // Verify timestamp
    let doc: DocumentMut = text.parse().unwrap();
    assert_eq!(doc["timestamp"]["format"].as_str(), Some("%Y%m%d"));
    assert_eq!(doc["timestamp"]["position"].as_str(), Some("before"));
}

#[test]
fn test_save_creates_file() {
    let config = default_config();
    let text = save(None, &config).unwrap();
    assert_eq!(
        text,
        "[search]\ngoogle = { url = \"https://www.google.com/search?q={query}\" }\n\n[folders]\n\n[apps]\n\n[timestamp]\nformat = \"%Y%m%d\"\nposition = \"before\"\n"
    );
    let doc: DocumentMut = text.parse().unwrap();
    assert_eq!(doc["timestamp"]["format"].as_str(), Some("%Y%m%d"));
}

#[test]
fn test_save_sorts_by_dispatch_key() {
    let mut config = empty_config();
    config.search.insert("gamma".to_string(), search(Some("g"), "https://gamma.com/?q={query}"));
    config.search.insert("alpha".to_string(), search(Some("t"), "https://alpha.com/?q={query}"));
    config.search.insert("beta".to_string(), search(Some("r"), "https://beta.com/?q={query}"));

    let text = save(None, &config).unwrap();

    // dispatch key order: g < r < t -> gamma, beta, alpha
    assert_eq!(names_in(&text, "search"), vec!["gamma", "beta", "alpha"]);
}

#[test]
fn save_puts_entries_without_key_last_by_name() {
    let mut config = empty_config();
    config.search.insert("zeta".to_string(), search(None, "https://z/{query}"));
    config.search.insert("beta".to_string(), search(Some("t"), "https://b/{query}"));
    config.search.insert("alpha".to_string(), search(None, "https://a/{query}"));
    config.search.insert("omega".to_string(), search(Some("1"), "https://o/{query}"));
    config.search.insert("twin".to_string(), search(Some("t"), "https://t/{query}"));
    let text = save(None, &config).unwrap();
    assert_eq!(names_in(&text, "search"), vec!["omega", "beta", "twin", "alpha", "zeta"]);
    // an entry without a key has no key field
    assert_eq!(field(&text, "search", "alpha", "key"), None);
}

#[test]
fn save_keeps_comments_and_other_tables() {
    let existing = "# my settings\n[search]\n# engines\nold = { url = \"https://old/{query}\" }\n\n[extra]\nkeep = true\n\n[timestamp]\nformat = \"%Y\" # year only\nposition = \"after\"\n";
    let text = save(Some(existing), &default_config()).unwrap();
    assert!(text.starts_with("# my settings\n[search]\n"));
    assert!(text.contains("[extra]\nkeep = true\n"));
    assert_eq!(names_in(&text, "search"), vec!["google"]);
    let doc: DocumentMut = text.parse().unwrap();
    assert_eq!(doc["timestamp"]["format"].as_str(), Some("%Y%m%d"));
    assert_eq!(doc["timestamp"]["position"].as_str(), Some("before"));
    assert!(doc["folders"].is_table());
    assert!(doc["apps"].is_table());
}

#[test]
fn save_starts_afresh_from_a_broken_file() {
    let fresh = save(None, &default_config()).unwrap();
    assert_eq!(save(Some("this is = = not toml"), &default_config()).unwrap(), fresh);
    assert_eq!(save(Some(""), &default_config()).unwrap(), fresh);
}

#[test]
fn save_refuses_a_section_that_is_not_a_table() {
    let error = save(Some("search = 5\n"), &default_config()).unwrap_err();
    assert_eq!(error, SaveError { table: TableName::Search });
    assert_eq!(error.message(), "search section is not a table");
    assert_eq!(
        save(Some("folders = \"x\"\n"), &default_config()).unwrap_err().message(),
        "folders section is not a table"
    );
    assert_eq!(
        save(Some("apps = [1]\n"), &default_config()).unwrap_err().message(),
        "apps section is not a table"
    );
    assert_eq!(
        save(Some("timestamp = { format = \"x\" }\n"), &default_config())
            .unwrap_err()
            .message(),
        "timestamp section is not a table"
    );
    assert_eq!(TableName::Apps.name(), "apps");
    assert_eq!(TableName::Apps.field(), "process");
}

fn key(keyless: bool, text: &str) -> EntryKey {
    EntryKey { keyless, text: text.to_string() }
}

#[test]
fn sort_order_is_stable() {
    assert_eq!(sort_order(&vec![]), Vec::<usize>::new());
    assert_eq!(sort_order(&vec![key(false, "g")]), vec![0]);
    let keys = vec![
        key(true, "zeta"),
        key(false, "t"),
        key(true, "alpha"),
        key(false, "1"),
        key(false, "t"),
        key(true, "alpha"),
        key(false, ""),
    ];
    assert_eq!(sort_order(&keys), vec![6, 3, 1, 4, 2, 5, 0]);

    // the same order as the standard library's stable sort of the pairs
    let mut expected: Vec<usize> = (0..keys.len()).collect();
    expected.sort_by(|&a, &b| {
        (keys[a].keyless, keys[a].text.as_str()).cmp(&(keys[b].keyless, keys[b].text.as_str()))
    });
    assert_eq!(sort_order(&keys), expected);
}

#[test]
fn texts_compare_by_their_bytes() {
    assert!(text_lt("a", "b"));
    assert!(!text_lt("b", "a"));
    assert!(!text_lt("a", "a"));
    assert!(text_lt("", "a"));
    assert!(!text_lt("a", ""));
    assert!(!text_lt("", ""));
    assert!(text_lt("ab", "abc"));
    assert!(text_lt("Z", "a"));
    assert!(text_lt("z", "é"));
    let words = ["", "a", "ab", "b", "B", "é", "日本", "~", "10", "9"];
    for a in words {
        for b in words {
            assert_eq!(text_lt(a, b), a < b);
        }
    }
}
