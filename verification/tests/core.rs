use mnem_cli::cli::{parse_usize, Args, CommonOptions};
use mnem_cli::commands::{all_commands, command_label, find_command, group_commands, help_group_ids, CommandKind};
use mnem_cli::dispatcher::{Dispatcher, Route};
use mnem_cli::fmt::{format_duration, u64_to_string};
use mnem_cli::nav::{next, prev};
use mnem_cli::restore::{
    checkpoint_message, clean_path, to_hash_message, undo_message, undo_target, version_message,
    version_target, CheckpointRestore, RestoreCommand, RestoreError, RestorePlan,
};

fn strings(v: &[&str]) -> Vec<String> {
    v.iter().map(|s| s.to_string()).collect()
}

#[test]
fn parse_usize_follows_str_parse() {
    assert_eq!(parse_usize("42"), Some(42));
    assert_eq!(parse_usize("+7"), Some(7));
    assert_eq!(parse_usize(""), None);
    assert_eq!(parse_usize("-1"), None);
    assert_eq!(parse_usize("12a"), None);
    assert_eq!(parse_usize("99999999999999999999999"), None);
}

#[test]
fn flag_values_and_positionals() {
    let args = Args::parse(strings(&["mnem", "log", "--branch", "dev", "a.rs"]));
    assert!(args.has_flag("--branch"));
    assert!(!args.has_flag("--limit"));
    assert_eq!(args.flag_value("--branch"), Some(&"dev".to_string()));
    assert_eq!(args.flag_value("--limit"), None);
    assert_eq!(args.get(0), Some(&"dev".to_string()));
    assert_eq!(args.get(5), None);
    let opts = CommonOptions::from_args(&args);
    assert_eq!(opts.limit, None);
    assert_eq!(opts.branch, Some("dev".to_string()));
    assert!(!opts.verbose);
    assert!(!opts.dry_run);
}

#[test]
fn commands_are_found_by_name_and_alias() {
    assert_eq!(find_command("log"), Some(CommandKind::Log));
    assert_eq!(find_command("tui"), Some(CommandKind::Tui));
    assert_eq!(find_command("nope"), None);
    assert_eq!(CommandKind::Log.name(), "log");
}

#[test]
fn dispatcher_routes() {
    match Dispatcher::route(strings(&["mnem"]), false) {
        Route::Run { command, ensure_watching, .. } => {
            assert_eq!(command, CommandKind::List);
            assert!(!ensure_watching);
        }
        _ => panic!("expected a command"),
    }
    match Dispatcher::route(strings(&["mnem"]), true) {
        Route::Run { command, ensure_watching, args } => {
            assert_eq!(command, CommandKind::History);
            assert!(ensure_watching);
            assert_eq!(args, strings(&["mnem", "history"]));
        }
        _ => panic!("expected a command"),
    }
    match Dispatcher::route(strings(&["mnem", "log", "a.rs"]), true) {
        Route::Run { command, ensure_watching, .. } => {
            assert_eq!(command, CommandKind::Log);
            assert!(ensure_watching);
        }
        _ => panic!("expected a command"),
    }
    match Dispatcher::route(strings(&["mnem", "abcd1234"]), false) {
        Route::Run { command, .. } => assert_eq!(command, CommandKind::Project),
        _ => panic!("expected a command"),
    }
    match Dispatcher::route(strings(&["mnem", "frobnicate"]), false) {
        Route::Unknown { name } => assert_eq!(name, "frobnicate"),
        _ => panic!("expected unknown"),
    }
    assert!(Dispatcher::is_project_id("deadbeef"));
    assert!(!Dispatcher::is_project_id("abc"));
    assert!(!Dispatcher::is_project_id("xyz12345"));
}

#[test]
fn durations_are_written_in_the_largest_units() {
    assert_eq!(format_duration(59), "59s");
    assert_eq!(format_duration(61), "1m 1s");
    assert_eq!(format_duration(3661), "1h 1m");
    assert_eq!(format_duration(90061), "1d 1h");
    assert_eq!(u64_to_string(0), "0");
    assert_eq!(u64_to_string(1234567890), "1234567890");
}

#[test]
fn navigation_wraps_and_skips_headers() {
    assert_eq!(next(Some(2), 3, None), Some(0));
    assert_eq!(prev(Some(0), 3, None), Some(2));
    assert_eq!(next(None, 3, None), Some(0));
    assert_eq!(next(Some(1), 0, None), Some(1));
    let headers = vec![true, false, true, false];
    assert_eq!(next(Some(1), 4, Some(&headers)), Some(3));
    assert_eq!(next(Some(3), 4, Some(&headers)), Some(1));
    assert_eq!(prev(Some(1), 4, Some(&headers)), Some(3));
    // moving down and up again comes back
    let down = next(Some(1), 5, None);
    assert_eq!(prev(down, 5, None), Some(1));
}

fn restore(file: Option<&str>) -> RestoreCommand {
    RestoreCommand {
        file: file.map(|s| s.to_string()),
        version: None,
        list: false,
        undo: false,
        to: None,
        symbol: None,
        checkpoint: None,
        branch: None,
        limit: 20,
        page: 1,
    }
}

#[test]
fn restore_plans() {
    assert!(matches!(restore(None).plan(), RestorePlan::MissingFile));
    assert!(matches!(restore(Some("a.rs")).plan(), RestorePlan::Usage));
    let mut c = restore(Some("./src/a.rs"));
    c.undo = true;
    match c.plan() {
        RestorePlan::Undo { file, path } => {
            assert_eq!(file, "./src/a.rs");
            assert_eq!(path, "src/a.rs");
        }
        _ => panic!("expected undo"),
    }
    let mut c = restore(Some("a.rs"));
    c.checkpoint = Some("cp1".to_string());
    assert!(matches!(c.plan(), RestorePlan::Checkpoint { .. }));
    let mut c = restore(Some("a.rs"));
    c.version = Some(3);
    assert!(matches!(c.plan(), RestorePlan::ToVersion { version: 3, .. }));
    assert_eq!(clean_path(".\\./x"), "x");
}

#[test]
fn restore_targets_and_messages() {
    assert_eq!(undo_target(1), Err(RestoreError::NoPreviousVersion));
    assert_eq!(undo_target(2), Ok(1));
    assert_eq!(version_target(0, 3), Err(RestoreError::InvalidVersion));
    assert_eq!(version_target(4, 3), Err(RestoreError::InvalidVersion));
    assert_eq!(version_target(3, 3), Ok(2));
    assert_eq!(RestoreError::NoPreviousVersion.message(), "No previous version to restore");
    assert_eq!(checkpoint_message("cp", CheckpointRestore::Local(3)), "Restored 3 files from checkpoint cp");
    assert_eq!(checkpoint_message("cp", CheckpointRestore::Daemon), "Restored project from checkpoint cp");
    assert_eq!(undo_message("a.rs", "T"), "Restored a.rs to version from T");
    assert_eq!(to_hash_message("a.rs", "0123456789", None), "Restored a.rs to 01234567");
    assert_eq!(to_hash_message("a.rs", "0123456789", Some("f")), "Restored symbol 'f' in a.rs to 01234567");
    assert_eq!(version_message("a.rs", 2, None), "Restored a.rs to version 2");
}

#[test]
fn help_lists_commands_by_group() {
    assert_eq!(help_group_ids(), vec!["General", "Daemon", "Workspace", "Git Integration", "Files", "Maintenance", "Apps"]);
    assert_eq!(group_commands("General"), vec![CommandKind::Help, CommandKind::Version]);
    assert_eq!(group_commands("Daemon"), vec![CommandKind::Start, CommandKind::Stop]);
    assert_eq!(group_commands("Nothing"), vec![]);
    assert_eq!(command_label(CommandKind::Help), "help");
    assert_eq!(command_label(CommandKind::Diff), "diff <file_path> <hash1> [hash2]");
}

#[test]
fn every_command_is_found_by_its_names() {
    for k in all_commands() {
        assert_eq!(find_command(k.name()), Some(k));
        for a in k.aliases() {
            assert_eq!(find_command(a), Some(k));
        }
    }
}
