use bcmr::config::{default_reflink, reflink_policy, Config};
use bcmr::confirm::{is_affirmative, removal_prompt, trim};
use bcmr::display::{format_dry_run_line, ActionType};
use bcmr::errors::BcmrError;
use bcmr::progress::{create_progress_bar, format_eta, percent_of, truncate_name, CopyProgress, ProgressData};
use bcmr::strutil::{parse_u64, str_contains, to_ascii_lower, u64_to_dec};

#[test]
fn progress_monotonic_and_clamped() {
    let mut p = CopyProgress::new(1000, false);
    p.set_current_file("a.bin", 300);
    p.inc_current(100);
    assert_eq!(p.data.current_file_progress, 100);
    assert_eq!(p.data.current_bytes, 100);
    p.inc_current(150);
    assert_eq!(p.data.current_file_progress, 250);
    // The per-file progress never exceeds the announced size.
    p.inc_current(500);
    assert_eq!(p.data.current_file_progress, 300);
    assert_eq!(p.data.current_bytes, 750);
    // A new file resets its own progress, not the total.
    p.set_current_file("b.bin", 50);
    assert_eq!(p.data.current_file_progress, 0);
    assert_eq!(p.data.current_bytes, 750);
}

#[test]
fn progress_items_and_finish() {
    let mut p = CopyProgress::new(10, true);
    assert!(p.plain_mode);
    p.set_total_items(4);
    assert_eq!(p.data.items_total, Some(4));
    p.inc_items_processed();
    p.inc_items_processed();
    assert_eq!(p.data.items_processed, 2);
    p.set_operation_type("Moving");
    assert_eq!(p.data.operation_type, "Moving");
    p.tick();
    assert!(!p.finished);
    p.finish();
    assert!(p.finished);
}

#[test]
fn speed_is_a_weighted_average() {
    let mut d = ProgressData::new(0);
    d.current_bytes = 1000;
    // First refresh: the instantaneous rate stands (1000 bytes in 1 s).
    assert_eq!(d.calculate_speed(1000), 1000);
    assert_eq!(d.last_bytes, 1000);
    // Second refresh: four parts old, one part new.
    d.current_bytes = 2000;
    // 1000 bytes in 500 ms: 2000 B/s; (4*1000 + 2000) / 5 = 1200.
    assert_eq!(d.calculate_speed(500), 1200);
    // Too soon: nothing changes.
    d.current_bytes = 3000;
    assert_eq!(d.calculate_speed(50), 1200);
    assert_eq!(d.last_bytes, 2000);
}

#[test]
fn eta_estimation() {
    let mut d = ProgressData::new(1000);
    d.current_bytes = 400;
    // No speed yet: unknown.
    assert_eq!(d.estimate_eta(), None);
    d.last_speed_bps = 100;
    // 600 bytes at 100 B/s, rounded up.
    assert_eq!(d.estimate_eta(), Some(6));
    d.last_speed_bps = 7;
    assert_eq!(d.estimate_eta(), Some(86));
    // Finished or empty: zero.
    d.current_bytes = 1000;
    assert_eq!(d.estimate_eta(), Some(0));
    let empty = ProgressData::new(0);
    assert_eq!(empty.estimate_eta(), Some(0));
}

#[test]
fn eta_formatting() {
    assert_eq!(format_eta(0), "00:00");
    assert_eq!(format_eta(59), "00:59");
    assert_eq!(format_eta(61), "01:01");
    assert_eq!(format_eta(3599), "59:59");
    assert_eq!(format_eta(3600), "01:00:00");
    assert_eq!(format_eta(3723), "01:02:03");
    assert_eq!(format_eta(360000), "100:00:00");
}

#[test]
fn percent_and_bars() {
    assert_eq!(percent_of(0, 100), 0);
    assert_eq!(percent_of(50, 100), 50);
    assert_eq!(percent_of(100, 100), 100);
    // A zero total shows zero progress rather than dividing by zero.
    assert_eq!(percent_of(0, 0), 0);
    assert_eq!(create_progress_bar(50, 10), "=====-----");
    assert_eq!(create_progress_bar(0, 4), "----");
    assert_eq!(create_progress_bar(100, 4), "====");
}

#[test]
fn name_truncation() {
    assert_eq!(truncate_name("short", 10), "short");
    assert_eq!(truncate_name("a-very-long-file-name.bin", 10), "a-very-...");
    let t = truncate_name("a-very-long-file-name.bin", 10);
    assert_eq!(t.chars().count(), 10);
}

#[test]
fn dry_run_lines() {
    assert_eq!(format_dry_run_line(ActionType::Add, "a.bin", Some("/dst/a.bin")), "ADD        a.bin -> /dst/a.bin");
    assert_eq!(format_dry_run_line(ActionType::Overwrite, "b", None), "OVERWRITE  b");
    assert_eq!(format_dry_run_line(ActionType::Remove, "c", None), "REMOVE     c");
    assert_eq!(ActionType::Skip.label(), "SKIP");
    assert_eq!(ActionType::Move.label(), "MOVE");
    assert_eq!(ActionType::Append.label(), "APPEND");
}

#[test]
fn affirmative_answers() {
    assert!(is_affirmative("y\n", true));
    assert!(is_affirmative("  YES \n", true));
    assert!(is_affirmative("Y", false));
    assert!(!is_affirmative("yes", false));
    assert!(!is_affirmative("n", true));
    assert!(!is_affirmative("", true));
    assert_eq!(trim("  a b \n"), "a b");
}

#[test]
fn removal_prompts() {
    assert_eq!(removal_prompt("/tmp/x", false), "Remove file '/tmp/x'? (y/N) ");
    assert_eq!(removal_prompt("/tmp/d", true), "Remove directory '/tmp/d'? (y/N) ");
}

#[test]
fn default_configuration() {
    let c = Config::default();
    assert_eq!(c.progress.style, "fancy");
    assert_eq!(c.progress.theme.bar_complete_char, "█");
    assert_eq!(c.progress.theme.bar_incomplete_char, "░");
    assert_eq!(c.progress.theme.bar_gradient, vec!["#CABBE9", "#7E6EAC"]);
    assert_eq!(c.progress.theme.text_color, "reset");
    assert_eq!(c.progress.theme.border_color, "#9E8BCA");
    assert_eq!(c.progress.theme.title_color, "#9E8BCA");
    assert_eq!(c.progress.layout.box_style, "rounded");
    assert_eq!(c.copy.reflink, "auto");
    assert_eq!(default_reflink(), "auto");
}

#[test]
fn reflink_policy_table() {
    // The command-line option wins and is case-folded.
    assert_eq!(reflink_policy(&Some("force".to_string()), "auto").unwrap(), (true, true));
    assert_eq!(reflink_policy(&Some("FORCE".to_string()), "never").unwrap(), (true, true));
    assert_eq!(reflink_policy(&Some("disable".to_string()), "auto").unwrap(), (false, false));
    assert_eq!(reflink_policy(&Some("Auto".to_string()), "never").unwrap(), (true, false));
    match reflink_policy(&Some("sometimes".to_string()), "auto") {
        Err(BcmrError::InvalidInput(m)) => {
            assert_eq!(m, "Invalid reflink mode 'sometimes'. Supported modes: force, disable, auto.")
        }
        _ => panic!("expected invalid input"),
    }
    // Without the option the configured default decides.
    assert_eq!(reflink_policy(&None, "auto").unwrap(), (true, false));
    assert_eq!(reflink_policy(&None, "never").unwrap(), (false, false));
    assert_eq!(reflink_policy(&None, "disable").unwrap(), (false, false));
    assert_eq!(reflink_policy(&None, "anything-else").unwrap(), (true, false));
}

#[test]
fn error_messages() {
    assert_eq!(
        BcmrError::TargetExists("/d/f".to_string()).message(),
        "Destination '/d/f' already exists. Use -f to force overwrite."
    );
    assert_eq!(BcmrError::SourceNotFound("x".to_string()).message(), "Source 'x' not found");
    assert_eq!(BcmrError::InvalidInput("bad".to_string()).message(), "Invalid input: bad");
    assert_eq!(
        BcmrError::VerificationError("/d/f".to_string()).message(),
        "Verification failed for '/d/f'"
    );
    assert_eq!(BcmrError::Reflink("no support".to_string()).message(), "Reflink failed: no support");
    assert_eq!(BcmrError::Io("broken pipe".to_string()).message(), "IO error: broken pipe");
    assert_eq!(BcmrError::Cancelled.message(), "Operation cancelled");
}

#[test]
fn string_helpers() {
    assert_eq!(parse_u64("0"), Some(0));
    assert_eq!(parse_u64("1234567890"), Some(1234567890));
    assert_eq!(parse_u64("+42"), Some(42));
    assert_eq!(parse_u64(""), None);
    assert_eq!(parse_u64("+"), None);
    assert_eq!(parse_u64("12a"), None);
    assert_eq!(parse_u64("18446744073709551615"), Some(u64::MAX));
    assert_eq!(parse_u64("18446744073709551616"), None);
    assert_eq!(u64_to_dec(0), "0");
    assert_eq!(u64_to_dec(907), "907");
    assert!(str_contains("hello world", "lo wo"));
    assert!(!str_contains("hello", "world"));
    assert!(str_contains("anything", ""));
    assert_eq!(to_ascii_lower("MiXeD-42"), "mixed-42");
}
