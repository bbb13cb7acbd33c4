use muhenkan_switch::failure::CommandError;
use muhenkan_switch::timestamp::{
    build_removed_timestamp_path, build_timestamped_path, explorer_duplicate,
    explorer_rename_prepend, explorer_rename_remove, format_toast_result, get_selected_paths,
    run, FileName, Rename, ShellWindow, TimestampPlan,
};

fn file(stem: Option<&str>, extension: Option<&str>) -> FileName {
    FileName { stem: stem.map(|s| s.to_string()), extension: extension.map(|e| e.to_string()) }
}

#[test]
fn run_plans_by_action_and_context() {
    assert_eq!(run("paste", None), Ok(TimestampPlan::TextPaste));
    assert_eq!(run("paste", Some(7)), Ok(TimestampPlan::RenamePrepend { window: 7 }));
    assert_eq!(run("copy", Some(7)), Ok(TimestampPlan::Duplicate { window: 7 }));
    assert_eq!(run("copy", None), Ok(TimestampPlan::Nothing));
    assert_eq!(run("cut", Some(7)), Ok(TimestampPlan::RenameRemove { window: 7 }));
    assert_eq!(run("cut", None), Ok(TimestampPlan::Nothing));
    let error = run("delete", Some(7)).unwrap_err();
    assert_eq!(error, CommandError::UnknownAction { action: "delete".to_string() });
    assert_eq!(
        error.message(),
        "Unknown timestamp action: 'delete'. Use paste, copy, or cut."
    );
    assert!(run("Paste", None).is_err());
    assert!(run("", None).is_err());
}

#[test]
fn timestamp_goes_before_or_after_the_stem() {
    let report = file(Some("report"), Some("txt"));
    assert_eq!(build_timestamped_path(&report, "20240131", "before"), "20240131_report.txt");
    assert_eq!(build_timestamped_path(&report, "20240131", "after"), "report_20240131.txt");
    // anything but "after" counts as before
    assert_eq!(build_timestamped_path(&report, "20240131", "middle"), "20240131_report.txt");
    assert_eq!(build_timestamped_path(&file(Some("notes"), None), "T", "after"), "notes_T");
    assert_eq!(build_timestamped_path(&file(None, None), "T", "before"), "T_");
    assert_eq!(build_timestamped_path(&file(None, Some("gz")), "T", "after"), "_T.gz");
}

#[test]
fn timestamp_is_removed_where_it_stands() {
    assert_eq!(
        build_removed_timestamp_path(&file(Some("20240131_report"), Some("txt")), "20240131", "before"),
        Some("report.txt".to_string())
    );
    assert_eq!(
        build_removed_timestamp_path(&file(Some("report_20240131"), Some("txt")), "20240131", "after"),
        Some("report.txt".to_string())
    );
    assert_eq!(
        build_removed_timestamp_path(&file(Some("report_20240131"), Some("txt")), "20240131", "before"),
        None
    );
    assert_eq!(
        build_removed_timestamp_path(&file(Some("20240131_report"), None), "20240131", "after"),
        None
    );
    assert_eq!(
        build_removed_timestamp_path(&file(Some("20240131_"), None), "20240131", "before"),
        Some(String::new())
    );
    assert_eq!(build_removed_timestamp_path(&file(None, Some("txt")), "20240131", "before"), None);
    assert_eq!(
        build_removed_timestamp_path(&file(Some("2024_report"), None), "20240131", "before"),
        None
    );
}

#[test]
fn removing_undoes_adding() {
    for position in ["before", "after"] {
        for stem in ["report", "", "a_b", "20240131"] {
            let stamped = build_timestamped_path(&file(Some(stem), None), "20240131", position);
            assert_eq!(
                build_removed_timestamp_path(&file(Some(&stamped), Some("txt")), "20240131", position),
                Some(format!("{}.txt", stem))
            );
        }
    }
}

#[test]
fn selections_are_renamed_in_order() {
    let files = vec![file(Some("a"), Some("txt")), file(Some("T_b"), None), file(None, None)];
    assert_eq!(explorer_rename_prepend(&files, "T", "before"), vec!["T_a.txt", "T_T_b", "T_"]);
    assert_eq!(explorer_duplicate(&files, "T", "after"), vec!["a_T.txt", "T_b_T", "_T"]);
    assert_eq!(
        explorer_rename_remove(&files, "T", "before"),
        vec![Rename { index: 1, name: "b".to_string() }]
    );
    assert_eq!(explorer_rename_remove(&files, "T", "after"), Vec::<Rename>::new());
    assert_eq!(explorer_rename_prepend(&Vec::new(), "T", "before"), Vec::<String>::new());
}

#[test]
fn toast_text_sums_up_the_result() {
    assert_eq!(format_toast_result(&Ok(vec![])), "(no selection)");
    assert_eq!(format_toast_result(&Ok(vec!["a.txt".to_string()])), "\u{2713} a.txt");
    assert_eq!(
        format_toast_result(&Ok(vec!["a.txt".to_string(), "b.txt".to_string()])),
        "\u{2713} 2 files"
    );
    let many: Vec<String> = (0..120).map(|i| format!("f{}", i)).collect();
    assert_eq!(format_toast_result(&Ok(many)), "\u{2713} 120 files");
    assert_eq!(
        format_toast_result(&Err("access denied".to_string())),
        "\u{2717} access denied"
    );
}

#[test]
fn selection_of_the_target_window() {
    let windows = vec![
        ShellWindow { window: 1, root: 10, selection: Some(vec!["x".to_string()]) },
        ShellWindow { window: 2, root: 20, selection: Some(vec!["a".to_string(), "b".to_string()]) },
        ShellWindow { window: 3, root: 20, selection: Some(vec!["c".to_string()]) },
        ShellWindow { window: 4, root: 40, selection: None },
    ];
    assert_eq!(get_selected_paths(Some(&windows), 2), Ok(vec!["a".to_string(), "b".to_string()]));
    assert_eq!(get_selected_paths(Some(&windows), 20), Ok(vec!["a".to_string(), "b".to_string()]));
    assert_eq!(get_selected_paths(Some(&windows), 3), Ok(vec!["c".to_string()]));
    assert_eq!(get_selected_paths(Some(&windows), 40), Ok(vec![]));
    assert_eq!(get_selected_paths(Some(&windows), 99), Ok(vec![]));
    let error = get_selected_paths(None, 2).unwrap_err();
    assert_eq!(error.message(), "Explorer file operations are only supported on Windows");
}
