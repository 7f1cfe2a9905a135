use cista::meta::{backup_file_name, backup_path, backup_path_under, meta_key, meta_path, meta_path_under};
use cista::paths::dir_under;
use cista::CoreError;
use cista::paths::stem;
use cista::repl::{decide_line, LineDecision, ReplCommand, ReplSession};
use cista::model::SecretString;
use cista::vault_files::{sort_texts, vault_name};
use cista::Vault;

#[test]
fn meta_keys_are_hex_and_path_dependent() {
    let a = meta_key("/home/me/a/foo.cista");
    let b = meta_key("/home/me/b/foo.cista");
    assert_eq!(a.len(), 32);
    assert!(a.chars().all(|c| c.is_ascii_hexdigit() && !c.is_ascii_uppercase()));
    assert_ne!(a, b);
    assert_eq!(a, meta_key("/home/me/a/foo.cista"));
    if let Ok(p) = meta_path("/home/me/a/foo.cista") {
        assert!(p.ends_with(&format!("cista/meta/{a}.json")));
    }
}

#[test]
fn backup_names() {
    assert_eq!(
        backup_file_name(Some("2024-05-01T10:20:30Z")),
        "2024-05-01T10-20-30Z.cista.bak"
    );
    assert_eq!(backup_file_name(None), "unknown.cista.bak");
    assert_eq!(stem("work.cista"), "work");
    assert_eq!(stem("archive.tar.gz"), "archive.tar");
    assert_eq!(stem(".hidden"), ".hidden");
    if let Ok(p) = backup_path("/x/work.cista", Some("t:1")) {
        assert!(p.ends_with("cista/backups/work/t-1.cista.bak"));
    }
}

#[test]
fn line_decisions() {
    assert!(matches!(decide_line(false, "   ", 20), LineDecision::Skip));
    assert!(matches!(decide_line(false, " list ", 20), LineDecision::Run(ReplCommand::List)));
    assert!(matches!(decide_line(true, "list", 20), LineDecision::Refuse));
    assert!(matches!(decide_line(true, "unlock", 20), LineDecision::Run(ReplCommand::Unlock)));
    assert!(matches!(decide_line(true, "exit", 20), LineDecision::Run(ReplCommand::Exit)));
}

#[test]
fn repl_session_locks_when_idle() {
    let sec = 1_000_000_000u128;
    let mut s = ReplSession::new(
        "/x/work.cista".to_string(),
        Vault::new(),
        SecretString::from("pw".to_string()),
        300,
        0,
    );
    assert_eq!(s.prompt(), "cista> ");
    assert!(!s.is_expired(299 * sec));
    assert!(s.is_expired(300 * sec));
    s.touch(300 * sec);
    assert!(!s.is_expired(599 * sec));
    s.lock();
    assert!(s.vault.is_none());
    assert!(s.password.is_none());
    assert_eq!(s.prompt(), "cista (locked)> ");
    assert!(!s.is_expired(10_000 * sec));
    s.unlocked(Vault::new(), SecretString::from("pw".to_string()), 10_000 * sec);
    assert!(!s.locked);
    assert_eq!(s.last_activity, 10_000 * sec);
}

#[test]
fn vault_file_names() {
    assert_eq!(vault_name("work.cista").as_deref(), Some("work"));
    assert_eq!(vault_name("a.cista.cista").as_deref(), Some("a"));
    assert_eq!(vault_name(".cista").as_deref(), Some(""));
    assert_eq!(vault_name("notes.txt"), None);
    assert_eq!(vault_name("work.CISTA"), None);
    let sorted = sort_texts(vec!["b.cista".to_string(), "a.cista".to_string(), "B.cista".to_string()]);
    assert_eq!(sorted, vec!["B.cista", "a.cista", "b.cista"]);
}

#[test]
fn an_idle_session_locks_before_the_line_is_decided() {
    let sec = 1_000_000_000u128;
    let mut s = ReplSession::new(
        "/x/work.cista".to_string(),
        Vault::new(),
        SecretString::from("pw".to_string()),
        300,
        0,
    );
    let (expired, d) = s.step_line(299 * sec, "list", 20);
    assert!(!expired);
    assert!(matches!(d, LineDecision::Run(ReplCommand::List)));
    assert!(!s.locked);
    let (expired, d) = s.step_line(300 * sec, "list", 20);
    assert!(expired);
    assert!(matches!(d, LineDecision::Refuse));
    assert!(s.locked && s.vault.is_none() && s.password.is_none());
    let (expired, d) = s.step_line(900 * sec, " unlock ", 20);
    assert!(!expired);
    assert!(matches!(d, LineDecision::Run(ReplCommand::Unlock)));
    let (_, d) = s.step_line(900 * sec, "  ", 20);
    assert!(matches!(d, LineDecision::Skip));
}

#[test]
fn expire_if_idle_leaves_an_active_session_alone() {
    let sec = 1_000_000_000u128;
    let mut s = ReplSession::new(
        "/x/work.cista".to_string(),
        Vault::new(),
        SecretString::from("pw".to_string()),
        0,
        0,
    );
    assert!(!s.expire_if_idle(1_000_000 * sec));
    assert!(!s.locked && s.vault.is_some());
}

fn io_err() -> CoreError {
    CoreError::Io(std::io::Error::new(std::io::ErrorKind::NotFound, "no home"))
}

#[test]
fn meta_path_goes_under_the_state_dir_found() {
    let key = meta_key("/v/work.cista");
    assert_eq!(
        meta_path_under(Ok("/s/cista".to_string()), "/v/work.cista").unwrap(),
        format!("/s/cista/meta/{key}.json")
    );
    match meta_path_under(Err(io_err()), "/v/work.cista") {
        Err(e) => assert_eq!(e.message(), "I/O error: no home"),
        Ok(_) => panic!("the state directory is unknown"),
    }
}

#[test]
fn backup_path_goes_under_the_backups_dir_found() {
    assert_eq!(
        backup_path_under(Ok("/d/cista/backups".to_string()), "/v/work.cista", Some("t:1")).unwrap(),
        "/d/cista/backups/work/t-1.cista.bak"
    );
    assert_eq!(
        backup_path_under(Ok("/b".to_string()), "/", None).unwrap(),
        "/b/vault/unknown.cista.bak"
    );
    assert!(matches!(backup_path_under(Err(io_err()), "/v/work.cista", None), Err(CoreError::Io(_))));
}

#[test]
fn dir_under_joins_or_passes_the_error_on() {
    assert_eq!(dir_under(Ok("/d/cista".to_string()), "vaults").unwrap(), "/d/cista/vaults");
    assert!(matches!(dir_under(Err(io_err()), "vaults"), Err(CoreError::Io(_))));
}
