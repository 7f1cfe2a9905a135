use cista::cli::{resolve_vault_path, resolve_vault_path_in, validate_vault_path, VaultPathError};
use cista::paths::{extension, join, vaults_dir};
use std::path::Path;

#[test]
fn bare_name_without_extension_resolves_to_cista() {
    let mut path = String::from("personal");
    resolve_vault_path(&mut path).expect("should resolve");
    assert!(Path::new(&path).is_absolute());
    assert!(Path::new(&path).ends_with("personal.cista"));
}

#[test]
fn bare_name_with_extension_resolves() {
    let mut path = String::from("personal.cista");
    resolve_vault_path(&mut path).expect("should resolve");
    assert!(Path::new(&path).is_absolute());
    assert!(Path::new(&path).ends_with("personal.cista"));
}

#[test]
fn explicit_path_with_directory_is_preserved() {
    let mut path = String::from("/tmp/a.cista");
    resolve_vault_path(&mut path).expect("should resolve");
    assert_eq!(path, String::from("/tmp/a.cista"));
}

#[test]
fn relative_path_with_directory_is_preserved() {
    let mut path = String::from("./my.cista");
    resolve_vault_path(&mut path).expect("should resolve");
    assert_eq!(path, String::from("./my.cista"));
}

#[test]
fn rejects_non_cista_extension() {
    let mut path = String::from("foo.txt");
    assert!(resolve_vault_path(&mut path).is_err());
}

#[test]
fn rejection_names_the_path_and_leaves_it() {
    let mut path = String::from("foo.txt");
    match resolve_vault_path(&mut path) {
        Err(VaultPathError::MissingCistaExtension(m)) => {
            assert_eq!(m, "vault path 'foo.txt' must end with the .cista extension")
        }
        _ => panic!("expected an extension error"),
    }
    assert_eq!(path, "foo.txt");
}

#[test]
fn validation_is_case_insensitive_and_needs_a_file_name() {
    assert!(validate_vault_path("/x/V.CISTA").is_ok());
    assert!(validate_vault_path("/x/.cista").is_err());
    assert!(validate_vault_path("/x/a.cista/..").is_err());
    assert!(validate_vault_path("/").is_err());
}

#[test]
fn extension_follows_path_rules() {
    assert_eq!(extension("a.tar.gz").as_deref(), Some("gz"));
    assert_eq!(extension(".bashrc"), None);
    assert_eq!(extension("plain"), None);
    assert_eq!(extension(".."), None);
    assert_eq!(extension("x."), Some(String::new()));
}

#[test]
fn join_follows_path_rules() {
    assert_eq!(join("/a", "b"), "/a/b");
    assert_eq!(join("/a/", "b"), "/a/b");
    assert_eq!(join("", "b"), "b");
    assert_eq!(join("/a", "/b"), "/b");
}

#[test]
fn bare_name_resolves_inside_the_vaults_dir() {
    let mut path = String::from("personal");
    resolve_vault_path(&mut path).expect("should resolve");
    let dir = vaults_dir().expect("vaults dir");
    assert_eq!(path, join(&dir, "personal.cista"));
    assert!(dir.ends_with("cista/vaults"));
}

#[test]
fn relative_path_with_subdirectory_is_used_as_is() {
    let mut path = String::from("sub/a.cista");
    resolve_vault_path(&mut path).expect("should resolve");
    assert_eq!(path, "sub/a.cista");
}

#[test]
fn relative_path_with_subdirectory_needs_the_extension() {
    let mut path = String::from("sub/a");
    match resolve_vault_path(&mut path) {
        Err(VaultPathError::MissingCistaExtension(m)) => {
            assert_eq!(m, "vault path 'sub/a' must end with the .cista extension")
        }
        _ => panic!("expected an extension error"),
    }
    assert_eq!(path, "sub/a");
}

#[test]
fn bare_name_with_other_extension_is_rejected_unchanged() {
    let mut path = String::from("notes.TXT");
    assert!(matches!(
        resolve_vault_path(&mut path),
        Err(VaultPathError::MissingCistaExtension(_))
    ));
    assert_eq!(path, "notes.TXT");
}

#[test]
fn bare_names_resolve_into_the_given_vaults_dir() {
    let dir = || Ok("/data/cista/vaults".to_string());
    let mut path = String::from("personal");
    resolve_vault_path_in(&mut path, dir()).unwrap();
    assert_eq!(path, "/data/cista/vaults/personal.cista");
    let mut path = String::from("Work.CISTA");
    resolve_vault_path_in(&mut path, dir()).unwrap();
    assert_eq!(path, "/data/cista/vaults/Work.CISTA");
    let mut path = String::from("notes.txt");
    assert!(matches!(
        resolve_vault_path_in(&mut path, dir()),
        Err(VaultPathError::MissingCistaExtension(_))
    ));
    assert_eq!(path, "notes.txt");
}

#[test]
fn an_unknown_vaults_dir_only_matters_for_bare_names() {
    let err = || Err(cista::CoreError::Io(std::io::Error::new(std::io::ErrorKind::NotFound, "no home")));
    let mut path = String::from("personal");
    match resolve_vault_path_in(&mut path, err()) {
        Err(e @ VaultPathError::NoVaultsDir(_)) => assert_eq!(e.message(), "I/O error: no home"),
        _ => panic!("expected the lookup error"),
    }
    assert_eq!(path, "personal");
    let mut path = String::from("/tmp/a.cista");
    resolve_vault_path_in(&mut path, err()).unwrap();
    assert_eq!(path, "/tmp/a.cista");
}
