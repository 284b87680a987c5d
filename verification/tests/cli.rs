use mnem_cli::cli::{Args, CommonOptions};

#[test]
fn test_args_parsing() {
    let raw = vec![
        "mnem".to_string(),
        "log".to_string(),
        "--limit".to_string(),
        "10".to_string(),
        "file.txt".to_string(),
    ];

    let args = Args::parse(raw);

    assert_eq!(args.command, Some("log".to_string()));
    assert_eq!(args.positional, vec!["10".to_string(), "file.txt".to_string()]);
    assert_eq!(args.flags, vec!["--limit".to_string()]);
}

#[test]
fn test_no_command() {
    let raw = vec!["mnem".to_string()];
    let args = Args::parse(raw);

    assert_eq!(args.command, None);
    assert!(args.positional.is_empty());
    assert!(args.flags.is_empty());
}

#[test]
fn test_common_options() {
    let raw = vec![
        "mnem".to_string(),
        "log".to_string(),
        "--limit".to_string(),
        "10".to_string(),
        "--verbose".to_string(),
        "--branch".to_string(),
        "main".to_string(),
    ];

    let args = Args::parse(raw);
    let opts = CommonOptions::from_args(&args);

    assert_eq!(opts.limit, Some(10));
    assert_eq!(opts.branch, Some("main".to_string()));
    assert!(opts.verbose);
}
