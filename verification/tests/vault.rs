use cista::model::SecretString;
use cista::sealing::{open, seal, seal_with};
use cista::{CoreError, Entry, Vault};
use serde_json::Value;

fn secret(s: &str) -> SecretString {
    SecretString::from(s.to_string())
}

/// The vault's JSON payload, built field by field.
fn vault_json(vault: &Vault) -> Vec<u8> {
    let mut entries = Vec::new();
    for e in vault.entries() {
        let mut m = serde_json::Map::new();
        m.insert("name".to_string(), Value::String(e.name().to_string()));
        m.insert(
            "username".to_string(),
            e.username().map(|u| Value::String(u.to_string())).unwrap_or(Value::Null),
        );
        m.insert("password".to_string(), Value::String(e.password().as_str().to_string()));
        entries.push(Value::Object(m));
    }
    let mut top = serde_json::Map::new();
    top.insert("version".to_string(), Value::from(vault.version()));
    top.insert("entries".to_string(), Value::Array(entries));
    serde_json::to_vec(&Value::Object(top)).unwrap()
}

fn github_entry() -> Entry {
    Entry::new(
        "github".to_string(),
        Some("me@example.com".to_string()),
        secret("hunter2"),
        Some("https://github.com".to_string()),
        None,
    )
    .expect("entry should be valid")
}

#[test]
fn seal_and_open_round_trip() {
    let mut vault = Vault::new();
    vault.add_entry(github_entry());

    let sealed = seal(&vault_json(&vault), b"my master password").expect("seal should succeed");
    let opened = open(&sealed, b"my master password").expect("open should succeed");
    let value: Value = serde_json::from_slice(&opened).unwrap();

    let entries = value["entries"].as_array().unwrap();
    assert_eq!(entries.len(), 1);
    assert_eq!(entries[0]["name"], "github");
}

#[test]
fn open_fails_with_wrong_password() {
    let vault = Vault::new();
    let sealed = seal(&vault_json(&vault), b"correct password").expect("seal should succeed");

    let result = open(&sealed, b"wrong password");
    assert!(result.is_err());
}

#[test]
fn opening_a_tampered_file_fails() {
    let mut vault = Vault::new();
    vault.add_entry(github_entry());

    // Tamper with a byte in the ciphertext region of the sealed data.
    let mut sealed = seal(&vault_json(&vault), b"master password").expect("seal should succeed");
    let last = sealed.len() - 1;
    sealed[last] ^= 0xFF;

    let result = open(&sealed, b"master password");
    assert!(result.is_err());
}

#[test]
fn identical_vaults_produce_different_files() {
    let mut vault = Vault::new();
    vault.add_entry(github_entry());

    // Sealing the same vault/password twice must yield different bytes
    // thanks to fresh random salt and nonce.
    let payload = vault_json(&vault);
    let sealed_a = seal(&payload, b"master password").expect("seal should succeed");
    let sealed_b = seal(&payload, b"master password").expect("seal should succeed");

    assert_ne!(sealed_a, sealed_b);
}

#[test]
fn seal_with_fixed_salt_and_nonce_is_deterministic() {
    let a = seal_with(b"payload", b"pw", [5u8; 16], [6u8; 24]).unwrap();
    let b = seal_with(b"payload", b"pw", [5u8; 16], [6u8; 24]).unwrap();
    assert_eq!(a, b);
    assert_eq!(a.len(), 8 + 56 + 4 + 7 + 16);
    assert_eq!(open(&a, b"pw").unwrap(), b"payload".to_vec());
}

#[test]
fn open_rejects_garbage_and_unknown_versions() {
    assert!(matches!(open(b"not a vault", b"pw"), Err(CoreError::InvalidFormat)));
    let mut sealed = seal_with(b"x", b"pw", [1u8; 16], [2u8; 24]).unwrap();
    sealed[8] = 2; // format version 2
    assert!(matches!(open(&sealed, b"pw"), Err(CoreError::UnsupportedVersion(2))));
}

#[test]
fn open_rejects_tampered_header() {
    let mut sealed = seal_with(b"x", b"pw", [1u8; 16], [2u8; 24]).unwrap();
    sealed[8 + 20] ^= 1; // a salt byte: authenticated as associated data
    assert!(matches!(open(&sealed, b"pw"), Err(CoreError::Unlock)));
}

#[test]
fn search_matches_across_fields_but_not_password() {
    let mut vault = Vault::new();
    vault.add_entry(
        Entry::new(
            "github".to_string(),
            Some("thaleo@dev.org".to_string()),
            secret("shh-password-123"),
            Some("https://github.com".to_string()),
            None,
        )
        .expect("valid entry"),
    );
    vault.add_entry(
        Entry::new(
            "mail".to_string(),
            Some("me@gmail.com".to_string()),
            secret("itsasecret"),
            Some("https://mail.google.com".to_string()),
            Some("recovery key stored safely".to_string()),
        )
        .expect("valid entry"),
    );

    assert_eq!(vault.search("thaleo").len(), 1); // by username
    assert_eq!(vault.search("gmail").len(), 1); // by url
    assert_eq!(vault.search("GITHUB").len(), 1); // case-insensitive name
    assert_eq!(vault.search("recovery").len(), 1); // by notes

    // Searching for a password substring must never match.
    assert_eq!(vault.search("shh-password").len(), 0);
    assert_eq!(vault.search("secret").len(), 0); // only in the password "itsasecret"
}

#[test]
fn search_trims_query_and_empty_query_matches_all() {
    let mut vault = Vault::new();
    vault.add_entry(github_entry());
    vault.add_entry(Entry::new("bank".to_string(), None, secret("x"), None, None).unwrap());
    assert_eq!(vault.search("  BANK  ").len(), 1);
    assert_eq!(vault.search("").len(), 2);
    assert_eq!(vault.search("   ").len(), 2);
}

#[test]
fn entry_name_is_trimmed_and_must_not_be_empty() {
    let e = Entry::new("  github \t".to_string(), None, secret("p"), None, None).unwrap();
    assert_eq!(e.name(), "github");
    assert_eq!(e.created_at(), e.updated_at());
    assert_eq!((e.id() >> 76) & 0xF, 4); // version 4 uuid
    assert!(matches!(
        Entry::new("   ".to_string(), None, secret("p"), None, None),
        Err(CoreError::EmptyName)
    ));
}

#[test]
fn entry_setters_change_one_field() {
    let mut e = github_entry();
    assert!(matches!(e.rename("  ".to_string()), Err(CoreError::EmptyName)));
    assert_eq!(e.name(), "github");
    e.rename(" gitlab ".to_string()).unwrap();
    assert_eq!(e.name(), "gitlab");
    e.set_username(None);
    assert_eq!(e.username(), None);
    e.set_url(Some("https://gitlab.com".to_string()));
    assert_eq!(e.url(), Some("https://gitlab.com"));
    e.set_notes(Some("n".to_string()));
    assert_eq!(e.notes().map(|n| n.as_str()), Some("n"));
    e.set_password(secret("new"));
    assert_eq!(e.password().as_str(), "new");
    assert!(e.updated_at() >= e.created_at());
}

#[test]
fn find_and_remove_by_id() {
    let mut vault = Vault::new();
    let a = github_entry();
    let id = a.id();
    vault.add_entry(a);
    vault.add_entry(Entry::new("GitHub".to_string(), None, secret("x"), None, None).unwrap());
    assert_eq!(vault.find_by_name("GITHUB").len(), 2);
    assert_eq!(vault.find_by_id(id).unwrap().name(), "github");
    let removed = vault.remove_by_id(id).unwrap();
    assert_eq!(removed.name(), "github");
    assert_eq!(vault.entries().len(), 1);
    assert!(vault.find_by_id(id).is_none());
    assert!(matches!(vault.remove_by_id(id), Err(CoreError::EntryNotFound)));
    assert_eq!(vault.entries().len(), 1);
}

#[test]
fn new_vault_is_empty_and_current() {
    let vault = Vault::new();
    assert_eq!(vault.version(), cista::model::CURRENT_SCHEMA_VERSION);
    assert!(vault.entries().is_empty());
}

#[test]
fn sealed_file_is_prefix_plus_payload_plus_tag() {
    let payload = vault_json(&Vault::new());
    let sealed = seal(&payload, b"master password").expect("seal should succeed");
    assert_eq!(sealed.len(), 68 + payload.len() + 16);
    let stored = u32::from_le_bytes([sealed[64], sealed[65], sealed[66], sealed[67]]) as usize;
    assert_eq!(stored, payload.len() + 16);
}

#[test]
fn secret_string_keeps_its_text_through_from_and_clone() {
    let s = SecretString::from("hunter2".to_string());
    assert_eq!(s.as_str(), "hunter2");
    let c = s.clone();
    assert_eq!(c.as_str(), "hunter2");
}
