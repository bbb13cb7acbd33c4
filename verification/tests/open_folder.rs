use indexmap::IndexMap;
use muhenkan_switch::config::{AppEntry, FolderEntry};
use muhenkan_switch::failure::CommandError;
use muhenkan_switch::open_folder::{
    confirm, expand_home, open_platform_default, resolve_trash_path, run, trash_place, FolderPlan,
    HomePath, TrashPlace,
};
use muhenkan_switch::platform::Platform;
use muhenkan_switch::switch_app::Desktop;
use std::path::PathBuf;

/// The path that a home path stands for, with the home directory at `home`.
fn located(path: HomePath, home: &std::path::Path) -> PathBuf {
    match path {
        HomePath::Literal(text) => PathBuf::from(text),
        HomePath::Home => home.to_path_buf(),
        HomePath::UnderHome(rest) => home.join(rest),
    }
}

fn home() -> PathBuf {
    dirs::home_dir().unwrap_or_else(|| PathBuf::from("/home/user"))
}

#[test]
fn expand_home_with_tilde_prefix() {
    let result = expand_home("~/Documents", true);
    let home = home();
    assert_eq!(result, HomePath::UnderHome("Documents".to_string()));
    assert_eq!(located(result, &home), home.join("Documents"));
}

#[test]
fn expand_home_tilde_only() {
    let result = expand_home("~", true);
    let home = home();
    assert_eq!(located(result, &home), home);
}

#[test]
fn expand_home_absolute_path_unchanged() {
    let result = expand_home("/tmp/test", true);
    assert_eq!(located(result, &home()), PathBuf::from("/tmp/test"));
}

#[test]
fn expand_home_relative_path_unchanged() {
    let result = expand_home("relative/path", true);
    assert_eq!(located(result, &home()), PathBuf::from("relative/path"));
}

#[test]
fn expand_home_tilde_in_middle_unchanged() {
    let result = expand_home("foo/~/bar", true);
    assert_eq!(located(result, &home()), PathBuf::from("foo/~/bar"));
}

#[test]
fn expand_home_without_a_home_directory() {
    assert_eq!(expand_home("~/Documents", false), HomePath::Literal("~/Documents".to_string()));
    assert_eq!(expand_home("~", false), HomePath::Literal("~".to_string()));
    assert_eq!(expand_home("~user", true), HomePath::Literal("~user".to_string()));
    assert_eq!(expand_home("~/", true), HomePath::UnderHome(String::new()));
    assert_eq!(expand_home("", true), HomePath::Literal(String::new()));
}

#[test]
fn resolve_trash_path_returns_freedesktop_path() {
    assert_eq!(trash_place(Platform::Linux), TrashPlace::FreeDesktop);
    match resolve_trash_path(Platform::Linux, true) {
        Ok(place) => assert_eq!(place, TrashPlace::FreeDesktop),
        Err(e) => panic!("Unexpected error: {}", e.message()),
    }
    match resolve_trash_path(Platform::Linux, false) {
        Ok(place) => panic!("unexpected {:?}", place),
        Err(e) => {
            assert!(
                e.message().contains("Trash folder not found"),
                "Unexpected error: {}",
                e.message()
            );
        }
    }
    assert_eq!(resolve_trash_path(Platform::MacOs, true), Ok(TrashPlace::HomeTrash));
    assert_eq!(resolve_trash_path(Platform::MacOs, false), Err(CommandError::TrashNotFound));
    assert_eq!(
        resolve_trash_path(Platform::Windows, true).unwrap_err().message(),
        "Opened via explorer.exe"
    );
}

#[test]
fn open_platform_default_unknown_target_errors() {
    let result = open_platform_default("nonexistent_folder");
    assert!(result.is_err());
    let msg = result.unwrap_err().message();
    assert!(
        msg.contains("nonexistent_folder"),
        "Expected error to mention target name, got: {}",
        msg
    );
    assert!(
        msg.contains("empty value"),
        "Expected error to mention empty value, got: {}",
        msg
    );
    assert_eq!(open_platform_default("trash"), Ok(FolderPlan::Trash));
}

#[test]
fn run_missing_folder_errors() {
    let folders: IndexMap<String, FolderEntry> = IndexMap::new();
    let result = run("nonexistent", &folders, true);
    assert!(result.is_err());
    assert!(result.unwrap_err().message().contains("not defined"));
}

#[test]
fn run_nonexistent_path_errors() {
    let mut folders = IndexMap::new();
    folders.insert(
        "test".to_string(),
        FolderEntry {
            key: Some("9".to_string()),
            path: "/tmp/__muhenkan_test_nonexistent_dir_12345__".to_string(),
        },
    );
    let plan = run("test", &folders, true).unwrap();
    let path = match plan {
        FolderPlan::Path(path) => located(path, &home()),
        FolderPlan::Trash => panic!("unexpected trash"),
    };
    let result = confirm(&path.display().to_string(), path.exists());
    assert!(result.is_err());
    assert!(result.unwrap_err().message().contains("does not exist"));
    assert_eq!(confirm("/tmp", true), Ok(()));
}

#[test]
fn run_empty_path_unknown_target_errors() {
    let mut folders = IndexMap::new();
    folders.insert(
        "unknown".to_string(),
        FolderEntry { key: Some("9".to_string()), path: "".to_string() },
    );
    let result = run("unknown", &folders, true);
    assert!(result.is_err());
    assert!(result.unwrap_err().message().contains("empty value"));
}

#[test]
fn run_plans_the_folder() {
    let mut folders = IndexMap::new();
    folders.insert("docs".to_string(), FolderEntry { key: None, path: "~/Documents".to_string() });
    folders.insert("trash".to_string(), FolderEntry { key: None, path: String::new() });
    assert_eq!(
        run("docs", &folders, true),
        Ok(FolderPlan::Path(HomePath::UnderHome("Documents".to_string())))
    );
    assert_eq!(
        run("docs", &folders, false),
        Ok(FolderPlan::Path(HomePath::Literal("~/Documents".to_string())))
    );
    assert_eq!(run("trash", &folders, true), Ok(FolderPlan::Trash));
}

#[test]
fn run_missing_app_errors() {
    let apps: IndexMap<String, AppEntry> = IndexMap::new();
    let result = muhenkan_switch::switch_app::run("nonexistent", &apps, Desktop::X11);
    assert!(result.is_err());
    assert!(result.unwrap_err().message().contains("not defined"));
}
