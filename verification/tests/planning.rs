use bcmr::cli::{Commands, Shell, TestMode};
use bcmr::progress::select_plain_renderer;
use bcmr::display::ActionType;
use bcmr::errors::BcmrError;
use bcmr::exclude::{compile_excludes, is_excluded, ExcludePattern};
use bcmr::planner::{
    check_overwrites, dry_run_action, get_total_size, plan_copy_source, resolve_overwrite,
    resolve_target, ChildFile, CopyEntry, CopyPlan, OverwriteAction, PathKind, SourceMeta,
};
use bcmr::remover::{
    check_removes, component_count, order_for_removal, removal_deltas, removal_summary,
    FileToRemove, ProgressState, RemoveEntry, RemoveSource,
};

fn patterns(ps: &[&str]) -> Vec<ExcludePattern> {
    let owned: Vec<String> = ps.iter().map(|p| p.to_string()).collect();
    compile_excludes(&owned).unwrap()
}

#[test]
fn excluded_paths_match_their_regexes() {
    let ex = patterns(&["keep$", "\\.tmp$"]);
    assert!(is_excluded("a/b/keep", &ex));
    assert!(!is_excluded("a/b/keeper", &ex));
    assert!(is_excluded("x/y/file.tmp", &ex));
    assert!(!is_excluded("x/y/file.tmp.bak", &ex));
}

#[test]
fn bad_pattern_reports_a_regex_error() {
    let ps = vec![String::from("([unclosed")];
    match compile_excludes(&ps) {
        Err(BcmrError::Regex(_)) => {}
        _ => panic!("expected a pattern error"),
    }
}

#[test]
fn target_resolution_joins_into_directories() {
    // A file copied into an existing directory lands under its own name.
    assert_eq!(resolve_target("/dst", true, "a.bin"), "/dst/a.bin");
    // Otherwise the destination itself is the target.
    assert_eq!(resolve_target("/dst/a.bin", false, "a.bin"), "/dst/a.bin");
}

#[test]
fn overwrite_list_skips_excluded_paths() {
    let ex = patterns(&["keep$"]);
    let entries = vec![
        CopyEntry {
            path: "src/a".to_string(),
            target: "dst/a".to_string(),
            is_dir: false,
            size: 10,
            target_exists: true,
        },
        CopyEntry {
            path: "src/keep".to_string(),
            target: "dst/keep".to_string(),
            is_dir: false,
            size: 20,
            target_exists: true,
        },
        CopyEntry {
            path: "src/b".to_string(),
            target: "dst/b".to_string(),
            is_dir: false,
            size: 30,
            target_exists: false,
        },
    ];
    let list = check_overwrites(&entries, &ex);
    assert_eq!(list.len(), 1);
    assert_eq!(list[0].path, "dst/a");
    assert!(!list[0].is_dir);
}

#[test]
fn total_size_counts_only_included_files() {
    let ex = patterns(&["keep$"]);
    let sources = vec![SourceMeta {
        path: "src".to_string(),
        kind: PathKind::Dir,
        size: 0,
        files: vec![
            ChildFile { path: "src/a".to_string(), size: 100, is_file: true },
            ChildFile { path: "src/keep".to_string(), size: 900, is_file: true },
            ChildFile { path: "src/sub".to_string(), size: 0, is_file: false },
            ChildFile { path: "src/b".to_string(), size: 23, is_file: true },
        ],
    }];
    assert_eq!(get_total_size(&sources, true, &ex).unwrap(), 123);
}

#[test]
fn total_size_rejects_directory_without_recursive() {
    let sources = vec![SourceMeta {
        path: "srcdir".to_string(),
        kind: PathKind::Dir,
        size: 0,
        files: Vec::new(),
    }];
    match get_total_size(&sources, false, &Vec::new()) {
        Err(BcmrError::InvalidInput(m)) => {
            assert_eq!(m, "Source 'srcdir' is a directory. Use -r flag for recursive copy.")
        }
        _ => panic!("expected invalid input"),
    }
}

#[test]
fn total_size_rejects_missing_source() {
    let sources = vec![SourceMeta {
        path: "gone".to_string(),
        kind: PathKind::Missing,
        size: 0,
        files: Vec::new(),
    }];
    match get_total_size(&sources, true, &Vec::new()) {
        Err(BcmrError::SourceNotFound(p)) => assert_eq!(p, "gone"),
        _ => panic!("expected source-not-found"),
    }
}

#[test]
fn single_file_total_is_its_size() {
    let sources = vec![SourceMeta {
        path: "a.bin".to_string(),
        kind: PathKind::File,
        size: 4096,
        files: Vec::new(),
    }];
    assert_eq!(get_total_size(&sources, false, &Vec::new()).unwrap(), 4096);
}

#[test]
fn collision_rules_at_the_destination() {
    // Exists, no force, no resume family: fatal.
    match resolve_overwrite(true, false, false, false, false, "/dst/a.bin") {
        Err(BcmrError::TargetExists(p)) => assert_eq!(p, "/dst/a.bin"),
        _ => panic!("expected a collision error"),
    }
    // Exists with force: delete first, then write.
    assert_eq!(
        resolve_overwrite(true, true, false, false, false, "/dst/a.bin").unwrap(),
        OverwriteAction::DeleteFirst
    );
    // A resume flag reconciles instead of deleting.
    assert_eq!(
        resolve_overwrite(true, true, true, false, false, "/dst/a.bin").unwrap(),
        OverwriteAction::Proceed
    );
    // Nothing stands there.
    assert_eq!(
        resolve_overwrite(false, false, false, false, false, "/dst/a.bin").unwrap(),
        OverwriteAction::Proceed
    );
}

#[test]
fn copy_plans_follow_the_rules() {
    let ex: Vec<ExcludePattern> = Vec::new();
    match plan_copy_source("a.bin", "a.bin", PathKind::File, "/dst", true, false, false, false, false, false, false, &ex) {
        Ok(CopyPlan::FileCopy { target, delete_first }) => {
            assert_eq!(target, "/dst/a.bin");
            assert!(!delete_first);
        }
        _ => panic!("expected a file copy plan"),
    }
    match plan_copy_source("d", "d", PathKind::Dir, "/dst", true, false, false, false, false, false, false, &ex) {
        Err(BcmrError::InvalidInput(m)) => {
            assert_eq!(m, "Source 'd' is a directory. Use -r flag for recursive copy.")
        }
        _ => panic!("expected invalid input"),
    }
    match plan_copy_source("d", "d", PathKind::Dir, "/dst", false, false, true, false, false, false, false, &ex) {
        Ok(CopyPlan::DirCopy { target }) => assert_eq!(target, "/dst"),
        _ => panic!("expected a directory copy plan"),
    }
}

#[test]
fn dry_run_classification() {
    // A fresh destination is an addition.
    assert_eq!(dry_run_action(false, 10, 0, 1, 1, false, false, false, ), ActionType::Add);
    // Strict sizes equal: optimistically a skip.
    assert_eq!(dry_run_action(true, 10, 10, 1, 2, false, false, true), ActionType::Skip);
    assert_eq!(dry_run_action(true, 10, 4, 1, 2, false, false, true), ActionType::Append);
    assert_eq!(dry_run_action(true, 10, 12, 1, 2, false, false, true), ActionType::Overwrite);
    // Resume consults mtimes.
    assert_eq!(dry_run_action(true, 10, 4, 1, 2, true, false, false), ActionType::Overwrite);
    assert_eq!(dry_run_action(true, 10, 4, 1, 1, true, false, false), ActionType::Append);
    // No flag at all: a plain overwrite.
    assert_eq!(dry_run_action(true, 10, 10, 1, 1, false, false, false), ActionType::Overwrite);
}

#[test]
fn removal_plan_excludes_kept_paths() {
    let ex = patterns(&["keep$"]);
    let sources = vec![RemoveSource {
        path: "d".to_string(),
        kind: PathKind::Dir,
        size: 0,
        is_empty: false,
        entries: vec![
            RemoveEntry { path: "d/x".to_string(), is_dir: false, size: 5 },
            RemoveEntry { path: "d/keep".to_string(), is_dir: false, size: 7 },
            RemoveEntry { path: "d/sub".to_string(), is_dir: true, size: 0 },
            RemoveEntry { path: "d".to_string(), is_dir: true, size: 0 },
        ],
    }];
    let plan = check_removes(&sources, true, false, false, &ex).unwrap();
    let paths: Vec<&str> = plan.iter().map(|f| f.path.as_str()).collect();
    assert_eq!(paths, vec!["d/x", "d/sub", "d"]);
}

#[test]
fn removal_rejects_directory_without_flags() {
    let sources = vec![RemoveSource {
        path: "d".to_string(),
        kind: PathKind::Dir,
        size: 0,
        is_empty: false,
        entries: Vec::new(),
    }];
    match check_removes(&sources, false, false, false, &Vec::new()) {
        Err(BcmrError::InvalidInput(m)) => {
            assert_eq!(m, "Cannot remove 'd': Is a directory (use -r for recursive removal)")
        }
        _ => panic!("expected invalid input"),
    }
}

#[test]
fn removal_dir_only_requires_empty() {
    let full = vec![RemoveSource {
        path: "d".to_string(),
        kind: PathKind::Dir,
        size: 0,
        is_empty: false,
        entries: Vec::new(),
    }];
    match check_removes(&full, false, true, false, &Vec::new()) {
        Err(BcmrError::InvalidInput(m)) => assert_eq!(m, "Cannot remove 'd': Directory not empty"),
        _ => panic!("expected invalid input"),
    }
    let empty = vec![RemoveSource {
        path: "d".to_string(),
        kind: PathKind::Dir,
        size: 0,
        is_empty: true,
        entries: Vec::new(),
    }];
    let plan = check_removes(&empty, false, true, false, &Vec::new()).unwrap();
    assert_eq!(plan.len(), 1);
    assert!(plan[0].is_dir);
}

#[test]
fn removal_missing_path_needs_force() {
    let sources = vec![RemoveSource {
        path: "gone".to_string(),
        kind: PathKind::Missing,
        size: 0,
        is_empty: false,
        entries: Vec::new(),
    }];
    match check_removes(&sources, true, false, false, &Vec::new()) {
        Err(BcmrError::SourceNotFound(p)) => assert_eq!(p, "gone"),
        _ => panic!("expected source-not-found"),
    }
    assert!(check_removes(&sources, true, false, true, &Vec::new()).unwrap().is_empty());
}

#[test]
fn removal_order_is_deepest_first() {
    let entries = vec![
        FileToRemove { path: "d".to_string(), is_dir: true, size: 0 },
        FileToRemove { path: "d/sub/x".to_string(), is_dir: false, size: 1 },
        FileToRemove { path: "d/sub".to_string(), is_dir: true, size: 0 },
        FileToRemove { path: "d/y".to_string(), is_dir: false, size: 1 },
    ];
    let ordered = order_for_removal(entries);
    let paths: Vec<&str> = ordered.iter().map(|f| f.path.as_str()).collect();
    assert_eq!(paths[0], "d/sub/x");
    assert_eq!(paths[3], "d");
    // Every directory comes after all of its descendants.
    let pos = |p: &str| paths.iter().position(|q| *q == p).unwrap();
    assert!(pos("d/sub/x") < pos("d/sub"));
    assert!(pos("d/sub") < pos("d"));
    assert!(pos("d/y") < pos("d"));
}

#[test]
fn component_counts() {
    assert_eq!(component_count(""), 0);
    assert_eq!(component_count("a"), 1);
    assert_eq!(component_count("a/b"), 2);
    assert_eq!(component_count("/a/b"), 3);
    assert_eq!(component_count("a//b/"), 2);
}

#[test]
fn removal_progress_deltas() {
    // Normally and under a delay the whole size arrives at once.
    assert_eq!(removal_deltas(500, &TestMode::Off, true), vec![500]);
    assert_eq!(removal_deltas(500, &TestMode::Delay(10), true), vec![500]);
    // An empty file announces nothing where zero sizes are skipped.
    assert!(removal_deltas(0, &TestMode::Off, true).is_empty());
    assert_eq!(removal_deltas(0, &TestMode::Off, false), vec![0]);
    // A speed limit chops the size into per-second chunks.
    assert_eq!(removal_deltas(250, &TestMode::SpeedLimit(100), true), vec![100, 100, 100]);
}

#[test]
fn removal_summary_counts() {
    let files = vec![
        FileToRemove { path: "a".to_string(), is_dir: false, size: 10 },
        FileToRemove { path: "d".to_string(), is_dir: true, size: 0 },
        FileToRemove { path: "b".to_string(), is_dir: false, size: 32 },
    ];
    let (file_count, dir_count, total) = removal_summary(&files);
    assert_eq!(file_count, 2);
    assert_eq!(dir_count, 1);
    assert_eq!(total, 42);
}

#[test]
fn progress_state_counts_items() {
    let mut st = ProgressState::new(3);
    assert_eq!(st.processed_items, 0);
    assert_eq!(st.total_items, 3);
    st.inc_processed();
    st.inc_processed();
    assert_eq!(st.processed_items, 2);
}

fn copy_command(test_mode: Option<&str>, exclude: Option<Vec<&str>>) -> Commands {
    Commands::Copy {
        source: "src".to_string(),
        destination: "dst".to_string(),
        recursive: false,
        preserve: false,
        force: false,
        yes: false,
        verify: false,
        resume: false,
        strict: false,
        append: false,
        dry_run: false,
        tui: false,
        exclude: exclude.map(|v| v.iter().map(|s| s.to_string()).collect()),
        plain_progress: false,
        reflink: None,
        sparse: None,
        test_mode: test_mode.map(|s| s.to_string()),
    }
}

#[test]
fn test_mode_parsing() {
    assert_eq!(copy_command(Some("delay:500"), None).get_test_mode(), TestMode::Delay(500));
    assert_eq!(
        copy_command(Some("speed_limit:1048576"), None).get_test_mode(),
        TestMode::SpeedLimit(1048576)
    );
    assert_eq!(copy_command(Some("delay:"), None).get_test_mode(), TestMode::Off);
    assert_eq!(copy_command(Some("delay:12:34"), None).get_test_mode(), TestMode::Off);
    assert_eq!(copy_command(Some("nonsense"), None).get_test_mode(), TestMode::Off);
    assert_eq!(copy_command(Some("pause:10"), None).get_test_mode(), TestMode::Off);
    assert_eq!(copy_command(None, None).get_test_mode(), TestMode::Off);
}

#[test]
fn command_excludes_are_regexes() {
    let cmd = copy_command(None, Some(vec!["tmp", "cache"]));
    assert!(cmd.should_exclude("/home/user/tmp/file"));
    assert!(cmd.should_exclude("/var/cache"));
    assert!(!cmd.should_exclude("/home/user/data"));
    assert!(!copy_command(None, None).should_exclude("/anything"));
    // Anchors and character classes work: these are regular expressions,
    // not plain substrings.
    let anchored = copy_command(None, Some(vec!["keep$"]));
    assert!(anchored.should_exclude("a/b/keep"));
    assert!(!anchored.should_exclude("a/b/keeper"));
    let class = copy_command(None, Some(vec!["\\.tmp$"]));
    assert!(class.should_exclude("x/y.tmp"));
    assert!(!class.should_exclude("x/ytmp"));
    // A pattern that does not compile matches nothing.
    let broken = copy_command(None, Some(vec!["([unclosed", "good$"]));
    assert!(!broken.should_exclude("([unclosed"));
    assert!(broken.should_exclude("is good"));
}

#[test]
fn command_accessors() {
    let cmd = copy_command(None, None);
    assert_eq!(cmd.get_source(), "src");
    assert_eq!(cmd.get_destination(), "dst");
    assert_eq!(cmd.get_operation_type(), "Copying");
    assert!(!cmd.is_recursive());
    assert!(!cmd.is_force());
    assert!(!cmd.should_prompt_for_overwrite());
    let rm = Commands::Remove {
        paths: vec!["x".to_string(), "y".to_string()],
        recursive: true,
        force: false,
        interactive: true,
        verbose: true,
        dir: false,
        dry_run: false,
        tui: false,
        exclude: None,
        plain_progress: true,
        test_mode: None,
    };
    assert_eq!(rm.get_source(), "x");
    assert_eq!(rm.get_remove_paths().unwrap().len(), 2);
    assert!(rm.is_recursive());
    assert!(rm.is_interactive());
    assert!(rm.is_verbose());
    assert!(!rm.is_dir_only());
    assert!(rm.is_plain_progress());
    assert!(rm.should_prompt_for_overwrite());
    assert_eq!(rm.get_operation_type(), "Removing");
    let init = Commands::Init {
        shell: Shell::Bash,
        cmd: String::new(),
        path: None,
        no_cmd: false,
    };
    assert_eq!(init.get_operation_type(), "Initializing");
    assert!(!init.is_force());
    assert!(!init.is_tui());
    assert!(!rm.is_tui());
}

#[test]
fn renderer_selection_rule() {
    // The tui flag always gets the full-screen box.
    assert!(!select_plain_renderer(true, false, "plain"));
    assert!(!select_plain_renderer(true, true, "plain"));
    // Without it, the plain-progress flag or the configured style pick
    // the inline display.
    assert!(select_plain_renderer(false, true, "fancy"));
    assert!(select_plain_renderer(false, false, "plain"));
    // Otherwise the box stands.
    assert!(!select_plain_renderer(false, false, "fancy"));
}

#[test]
fn compile_succeeds_exactly_on_valid_patterns() {
    let good = vec![String::from("a.*b"), String::from("keep$")];
    assert!(compile_excludes(&good).is_ok());
    let mixed = vec![String::from("fine"), String::from("([unclosed")];
    assert!(compile_excludes(&mixed).is_err());
}
