use cloud_storage_utilizer::cli::{Cli, Command};

#[test]
fn parse_download_two_paths() {
    let cli = Cli::parse_str("download a b").unwrap();
    match cli.command {
        Command::Download { from_path, to_path } => {
            assert_eq!(from_path, "a");
            assert_eq!(to_path, "b");
        }
        _ => panic!("expected a download command"),
    }
}

#[test]
fn parse_upload_two_paths() {
    let cli = Cli::parse_str("upload /x/y /r/s").unwrap();
    match cli.command {
        Command::Upload { from_path, to_path } => {
            assert_eq!(from_path, "/x/y");
            assert_eq!(to_path, "/r/s");
        }
        _ => panic!("expected an upload command"),
    }
}

#[test]
fn parse_delete_one_path() {
    let cli = Cli::parse_str("delete x").unwrap();
    match cli.command {
        Command::Delete { path } => assert_eq!(path, "x"),
        _ => panic!("expected a delete command"),
    }
}

#[test]
fn parse_list_and_clear() {
    assert!(matches!(Cli::parse_str("list").unwrap().command, Command::List));
    assert!(matches!(Cli::parse_str("clear").unwrap().command, Command::Clear));
}

#[test]
fn parse_unknown_leading_token_fails() {
    assert!(Cli::parse_str("bogus").is_err());
}

#[test]
fn parse_missing_field_fails() {
    assert!(Cli::parse_str("download a").is_err());
    assert!(Cli::parse_str("delete").is_err());
}

#[test]
fn parse_extra_tokens_fail() {
    assert!(Cli::parse_str("list extra").is_err());
    assert!(Cli::parse_str("download a b c").is_err());
    assert!(Cli::parse_str("delete x y").is_err());
}

#[test]
fn parse_empty_line_fails() {
    assert!(Cli::parse_str("").is_err());
    assert!(Cli::parse_str("   ").is_err());
}

#[test]
fn parse_tolerates_surrounding_whitespace() {
    let cli = Cli::parse_str("  download \t a \n b  ").unwrap();
    match cli.command {
        Command::Download { from_path, to_path } => {
            assert_eq!(from_path, "a");
            assert_eq!(to_path, "b");
        }
        _ => panic!("expected a download command"),
    }
}
