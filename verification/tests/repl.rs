use cista::repl::{command_allowed, complete, parse_command, session_expired, ReplCommand};

#[test]
fn parses_basic_commands() {
    assert!(matches!(parse_command("list", 20), ReplCommand::List));
    assert!(matches!(parse_command("ls", 20), ReplCommand::List));
    assert!(matches!(parse_command("add", 20), ReplCommand::Add));
    assert!(matches!(parse_command("lock", 20), ReplCommand::Lock));
    assert!(matches!(parse_command("unlock", 20), ReplCommand::Unlock));
    assert!(matches!(parse_command("exit", 20), ReplCommand::Exit));
    assert!(matches!(parse_command("quit", 20), ReplCommand::Exit));
    assert!(matches!(parse_command("q", 20), ReplCommand::Exit));
}

#[test]
fn parses_named_commands() {
    match parse_command("get github", 20) {
        ReplCommand::Get(name) => assert_eq!(name, "github"),
        other => panic!("unexpected: {other:?}"),
    }
    match parse_command("edit my bank", 20) {
        ReplCommand::Edit(name) => assert_eq!(name, "my bank"),
        other => panic!("unexpected: {other:?}"),
    }
}

#[test]
fn parses_generate_flags() {
    match parse_command("generate --length 30 --no-symbols", 20) {
        ReplCommand::Generate {
            length,
            no_symbols,
            exclude_ambiguous,
        } => {
            assert_eq!(length, 30);
            assert!(no_symbols);
            assert!(!exclude_ambiguous);
        }
        other => panic!("unexpected: {other:?}"),
    }
    match parse_command("gen", 20) {
        ReplCommand::Generate {
            length,
            no_symbols,
            exclude_ambiguous,
        } => {
            assert_eq!(length, 20); // default config value
            assert!(!no_symbols);
            assert!(!exclude_ambiguous);
        }
        other => panic!("unexpected: {other:?}"),
    }
}

#[test]
fn unknown_command_falls_back_to_help() {
    assert!(matches!(
        parse_command("totally-unknown", 20),
        ReplCommand::Help
    ));
}

#[test]
fn search_and_rm_arguments() {
    assert!(matches!(parse_command("search", 20), ReplCommand::Search(None)));
    match parse_command("  search   two   words ", 20) {
        ReplCommand::Search(Some(t)) => assert_eq!(t, "two words"),
        other => panic!("unexpected: {other:?}"),
    }
    match parse_command("delete x", 20) {
        ReplCommand::Rm(t) => assert_eq!(t, "x"),
        other => panic!("unexpected: {other:?}"),
    }
    assert!(matches!(parse_command("", 20), ReplCommand::Help));
    assert!(matches!(parse_command("password", 20), ReplCommand::Passwd));
}

#[test]
fn generate_flag_edge_cases() {
    match parse_command("gen -l abc --exclude-ambiguous", 12) {
        ReplCommand::Generate { length, exclude_ambiguous, .. } => {
            assert_eq!(length, 12);
            assert!(exclude_ambiguous);
        }
        other => panic!("unexpected: {other:?}"),
    }
    match parse_command("gen --length", 12) {
        ReplCommand::Generate { length, .. } => assert_eq!(length, 12),
        other => panic!("unexpected: {other:?}"),
    }
    match parse_command("gen --length +7", 12) {
        ReplCommand::Generate { length, .. } => assert_eq!(length, 7),
        other => panic!("unexpected: {other:?}"),
    }
}

#[test]
fn session_expiry_and_locked_commands() {
    assert!(session_expired(false, 300, 300_000_000_000));
    assert!(!session_expired(false, 300, 299_999_999_999));
    assert!(!session_expired(true, 300, 1_000_000_000_000));
    assert!(!session_expired(false, 0, 1_000_000_000_000));
    assert!(command_allowed(true, &ReplCommand::Unlock));
    assert!(command_allowed(true, &ReplCommand::Exit));
    assert!(!command_allowed(true, &ReplCommand::List));
    assert!(command_allowed(false, &ReplCommand::List));
}

fn names(v: &[&str]) -> Vec<String> {
    v.iter().map(|s| s.to_string()).collect()
}

#[test]
fn completes_commands_from_command_prefix() {
    let (start, cands) = complete("li", &names(&[]));
    assert_eq!(start, 0);
    assert!(cands.iter().any(|c| c == "list"));
    let (_, cands) = complete("gen", &names(&[]));
    assert!(cands.iter().any(|c| c == "generate"));
}

#[test]
fn complete_start_is_word_start() {
    let (start, cands) = complete("get g", &names(&["github"]));
    assert_eq!(start, 4);
    assert_eq!(cands, vec!["github".to_string()]);
}

#[test]
fn completes_entry_names_for_name_commands() {
    let (start, cands) = complete("get g", &names(&["github", "gmail", "bank"]));
    assert_eq!(start, 4);
    assert_eq!(cands, vec!["github".to_string(), "gmail".to_string()]);
}

#[test]
fn does_not_complete_entry_names_for_non_name_commands() {
    let (_, cands) = complete("list g", &names(&["github", "gmail", "bank"]));
    assert!(cands.is_empty());
}

#[test]
fn no_completion_for_unknown_value() {
    let (_, cands) = complete("zzz", &names(&[]));
    assert!(cands.is_empty());
}

#[test]
fn completion_start_counts_bytes() {
    let (start, _) = complete("get é", &names(&["école"]));
    assert_eq!(start, 4);
    let (start, cands) = complete("héé g", &names(&["go"]));
    assert_eq!(start, 6);
    assert!(cands.is_empty());
}
