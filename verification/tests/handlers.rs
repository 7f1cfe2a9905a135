use cista::cli::FieldSelector;
use cista::handlers::{
    apply_edit_answers, choice_listing, choices_for, confirm_deletion, edit_entry,
    edit_entry_with, entry_password, field_text, lookup_entry, no_match_message, read_new_password, remove_named,
    resolve_entry_id, select_match, y_answer_from, EditAnswers, HandlerError, PasswordOrigin,
};
use cista::model::SecretString;
use cista::handlers::{answer_from, deletion_prompt, new_password_from};
use cista::prompts::{optional_from, yes_no_from, InputSource};
use cista::{CoreError, Entry, Vault};

/// Answers prompts from a script and records the prompts it was shown.
struct Script {
    answers: Vec<String>,
    prompts: Vec<String>,
}

impl Script {
    fn new(answers: &[&str]) -> Script {
        Script { answers: answers.iter().rev().map(|s| s.to_string()).collect(), prompts: Vec::new() }
    }
}

impl InputSource for Script {
    fn read_line(&mut self, prompt: &str) -> std::io::Result<String> {
        self.prompts.push(prompt.to_string());
        self.answers
            .pop()
            .ok_or_else(|| std::io::Error::new(std::io::ErrorKind::UnexpectedEof, "no more input"))
    }

    fn read_password(&mut self, prompt: &str) -> std::io::Result<String> {
        self.read_line(prompt)
    }
}

fn entry(name: &str, user: Option<&str>) -> Entry {
    Entry::new(
        name.to_string(),
        user.map(|u| u.to_string()),
        SecretString::from("pw".to_string()),
        None,
        Some("note".to_string()),
    )
    .unwrap()
}

fn vault() -> Vault {
    let mut v = Vault::new();
    v.add_entry(entry("mail", Some("a@x")));
    v.add_entry(entry("Mail", None));
    v.add_entry(entry("bank", Some("me")));
    v
}

#[test]
fn resolves_single_and_missing_names() {
    let v = vault();
    let mut input = Script::new(&[]);
    let id = resolve_entry_id(&v, "BANK", &mut input).unwrap();
    assert_eq!(id, v.entries()[2].id());
    assert!(input.prompts.is_empty());
    match resolve_entry_id(&v, "nope", &mut input) {
        Err(e @ HandlerError::NoEntryFound(_)) => {
            assert_eq!(e.message(), "No entry found for 'nope'")
        }
        _ => panic!("expected no entry"),
    }
}

#[test]
fn resolves_duplicates_by_index() {
    let v = vault();
    let mut input = Script::new(&["1"]);
    let id = resolve_entry_id(&v, "mail", &mut input).unwrap();
    assert_eq!(id, v.entries()[1].id());
    assert_eq!(input.prompts, vec!["Choose one by index: ".to_string()]);
    let mut input = Script::new(&["7"]);
    assert!(matches!(
        resolve_entry_id(&v, "mail", &mut input),
        Err(HandlerError::InvalidSelection)
    ));
    let mut input = Script::new(&["x"]);
    let e = resolve_entry_id(&v, "mail", &mut input).unwrap_err();
    assert_eq!(e.message(), "Invalid selection");
    let mut input = Script::new(&[]);
    assert!(matches!(resolve_entry_id(&v, "mail", &mut input), Err(HandlerError::Input(_))));
}

#[test]
fn selects_a_match_by_answer() {
    let v = vault();
    let matches = v.find_by_name("mail");
    assert_eq!(select_match(&matches, "1").unwrap(), v.entries()[1].id());
    assert_eq!(select_match(&matches, "+0").unwrap(), v.entries()[0].id());
    assert!(matches!(select_match(&matches, "2"), Err(HandlerError::InvalidSelection)));
    assert!(select_match(&matches, "-1").is_err());
    assert!(select_match(&matches, "").is_err());
    assert!(select_match(&matches, " 1").is_err());
}

#[test]
fn listing_shows_candidates() {
    let v = vault();
    let matches = v.find_by_name("mail");
    assert_eq!(
        choice_listing("mail", &matches),
        "Multiple entries found for 'mail':\n  [0] mail (a@x)\n  [1] Mail (no username)\n"
    );
    assert_eq!(choices_for(&v, "MAIL").as_deref(), Some(choice_listing("MAIL", &matches).as_str()));
    assert_eq!(choices_for(&v, "bank"), None);
    assert_eq!(choices_for(&v, "nope"), None);
}

#[test]
fn edit_keeps_empty_answers() {
    let mut v = vault();
    let id = v.entries()[0].id();
    let mut input = Script::new(&["", "new@x", "", "https://mail.example", ""]);
    edit_entry(&mut v, id, &mut input).unwrap();
    let e = &v.entries()[0];
    assert_eq!(e.name(), "mail");
    assert_eq!(e.username(), Some("new@x"));
    assert_eq!(e.password().as_str(), "pw");
    assert_eq!(e.url(), Some("https://mail.example"));
    assert_eq!(e.notes().unwrap().as_str(), "note");
    assert_eq!(input.prompts[0], "Service name [mail]: ");
    assert_eq!(input.prompts[1], "Username [a@x]: ");
    assert_eq!(input.prompts[3], "URL []: ");
    let mut input = Script::new(&[]);
    assert!(matches!(edit_entry(&mut v, 12345, &mut input), Err(HandlerError::EntryNotFound)));
}

#[test]
fn edit_answers_rename_and_refuse_blank_names() {
    let mut e = entry("mail", None);
    let answers = EditAnswers {
        name: "  webmail ".to_string(),
        username: String::new(),
        password: "new".to_string(),
        url: String::new(),
        notes: String::new(),
    };
    apply_edit_answers(&mut e, answers).unwrap();
    assert_eq!(e.name(), "webmail");
    assert_eq!(e.password().as_str(), "new");
    let answers = EditAnswers {
        name: "   ".to_string(),
        username: "x".to_string(),
        password: String::new(),
        url: String::new(),
        notes: String::new(),
    };
    assert!(matches!(apply_edit_answers(&mut e, answers), Err(CoreError::EmptyName)));
    assert_eq!(e.username(), None);
}

#[test]
fn deletion_confirmation() {
    let mut input = Script::new(&[]);
    assert!(confirm_deletion(&mut input, "bank", true).unwrap());
    assert!(input.prompts.is_empty());
    let mut input = Script::new(&["Y"]);
    assert!(confirm_deletion(&mut input, "bank", false).unwrap());
    assert_eq!(input.prompts[0], "Delete 'bank'? (y/N): ");
    let mut input = Script::new(&["yes"]);
    assert!(!confirm_deletion(&mut input, "bank", false).unwrap());
}

#[test]
fn new_password_must_match() {
    let mut input = Script::new(&["a", "a"]);
    let p = read_new_password(&mut input, "Master password: ", "Confirm master password: ")
        .unwrap();
    assert_eq!(p.as_str(), "a");
    let mut input = Script::new(&["a", "b"]);
    match read_new_password(&mut input, "New: ", "Again: ") {
        Err(e) => assert_eq!(e.message(), "Passwords do not match"),
        Ok(_) => panic!("the passwords differ"),
    }
}

#[test]
fn field_texts_and_messages() {
    let e = entry("mail", Some("a@x"));
    assert_eq!(field_text(&e, FieldSelector::Username), "a@x");
    assert_eq!(field_text(&e, FieldSelector::Url), "");
    assert_eq!(field_text(&e, FieldSelector::Notes), "note");
    assert_eq!(no_match_message("  "), "No entries stored.");
    assert_eq!(no_match_message(" git "), "No entries found for 'git'.");
}

#[test]
fn core_error_messages() {
    assert_eq!(CoreError::EmptyName.message(), "entry name cannot be empty");
    assert_eq!(CoreError::UnsupportedVersion(42).message(), "unsupported format version: 42");
    assert_eq!(CoreError::UnsupportedVersion(0).message(), "unsupported format version: 0");
    assert_eq!(
        CoreError::Unlock.message(),
        "failed to unlock vault: wrong password or corrupted file"
    );
    let io = CoreError::Io(std::io::Error::new(std::io::ErrorKind::Other, "boom"));
    assert_eq!(io.message(), "I/O error: boom");
}

#[test]
fn answers_from_reads() {
    let err = || std::io::Error::new(std::io::ErrorKind::UnexpectedEof, "eof");
    assert!(yes_no_from(Ok("Y".to_string())).unwrap());
    assert!(yes_no_from(Ok("yes".to_string())).unwrap());
    assert!(yes_no_from(Ok("Yup".to_string())).unwrap());
    assert!(!yes_no_from(Ok("no".to_string())).unwrap());
    assert!(!yes_no_from(Ok("".to_string())).unwrap());
    assert!(!yes_no_from(Ok(" y".to_string())).unwrap());
    assert!(yes_no_from(Err(err())).is_err());
    assert_eq!(optional_from(Ok(String::new())).unwrap(), None);
    assert_eq!(optional_from(Ok("x".to_string())).unwrap().as_deref(), Some("x"));
    assert!(optional_from(Err(err())).is_err());
    assert_eq!(answer_from(Ok("a".to_string())).unwrap(), "a");
    assert!(matches!(answer_from(Err(err())), Err(HandlerError::Input(_))));
    assert_eq!(deletion_prompt("bank"), "Delete 'bank'? (y/N): ");
    let mut input = Script::new(&["", "n"]);
    assert_eq!(input.prompt_optional_line("U: ").unwrap(), None);
    assert!(!input.prompt_yes_no("Q: ").unwrap());
}

#[test]
fn new_password_is_taken_only_when_both_typings_agree() {
    let p = new_password_from("s3cret".to_string(), "s3cret".to_string()).expect("equal typings");
    assert_eq!(p.as_str(), "s3cret");
    assert!(matches!(
        new_password_from("s3cret".to_string(), "s3cret ".to_string()),
        Err(HandlerError::PasswordsDoNotMatch)
    ));
    let empty = new_password_from(String::new(), String::new()).expect("equal typings");
    assert_eq!(empty.as_str(), "");
}

#[test]
fn yes_no_prompt_accepts_answers_starting_with_y() {
    let mut input = Script::new(&["yes", "Yeah", "nope"]);
    assert!(input.prompt_yes_no("Q: ").unwrap());
    assert!(input.prompt_yes_no("Q: ").unwrap());
    assert!(!input.prompt_yes_no("Q: ").unwrap());
    assert_eq!(input.prompts, vec!["Q: ".to_string(); 3]);
}

#[test]
fn exact_y_answers() {
    let err = || std::io::Error::new(std::io::ErrorKind::UnexpectedEof, "eof");
    assert!(y_answer_from(Ok("y".to_string())).unwrap());
    assert!(y_answer_from(Ok("Y".to_string())).unwrap());
    assert!(!y_answer_from(Ok("yes".to_string())).unwrap());
    assert!(matches!(y_answer_from(Err(err())), Err(HandlerError::Input(_))));
}

#[test]
fn edit_with_answers_changes_only_that_entry() {
    let mut v = vault();
    let id = v.entries()[2].id();
    let before: Vec<String> = v.entries().iter().map(|e| e.name().to_string()).collect();
    let answers = EditAnswers {
        name: "  savings ".to_string(),
        username: String::new(),
        password: "new-pw".to_string(),
        url: "https://bank.example".to_string(),
        notes: String::new(),
    };
    edit_entry_with(&mut v, id, answers).unwrap();
    let e = &v.entries()[2];
    assert_eq!(e.name(), "savings");
    assert_eq!(e.username(), Some("me"));
    assert_eq!(e.password().as_str(), "new-pw");
    assert_eq!(e.url(), Some("https://bank.example"));
    assert_eq!(v.entries()[0].name(), before[0]);
    assert_eq!(v.entries()[1].name(), before[1]);
    let blank = EditAnswers {
        name: "   ".to_string(),
        username: String::new(),
        password: String::new(),
        url: String::new(),
        notes: String::new(),
    };
    assert!(matches!(
        edit_entry_with(&mut v, id, blank),
        Err(HandlerError::Core(cista::CoreError::EmptyName))
    ));
    assert_eq!(v.entries()[2].name(), "savings");
    let none = EditAnswers {
        name: String::new(),
        username: String::new(),
        password: String::new(),
        url: String::new(),
        notes: String::new(),
    };
    assert!(matches!(edit_entry_with(&mut v, 12345, none), Err(HandlerError::EntryNotFound)));
}

#[test]
fn entry_password_sources() {
    let mut input = Script::new(&[]);
    let (p, o) = entry_password(&mut input, true, 12).unwrap();
    assert_eq!(o, PasswordOrigin::Requested);
    assert_eq!(p.as_str().chars().count(), 12);
    assert!(input.prompts.is_empty());
    assert!(matches!(
        entry_password(&mut input, true, 0),
        Err(HandlerError::Core(cista::CoreError::ZeroLength))
    ));
    let mut input = Script::new(&["y"]);
    let (p, o) = entry_password(&mut input, false, 12).unwrap();
    assert_eq!(o, PasswordOrigin::Offered);
    assert_eq!(p.as_str().chars().count(), 20);
    assert_eq!(input.prompts, vec!["Generate a random password? (y/N): ".to_string()]);
    let mut input = Script::new(&["yes", "typed-secret"]);
    let (p, o) = entry_password(&mut input, false, 12).unwrap();
    assert_eq!(o, PasswordOrigin::Typed);
    assert_eq!(p.as_str(), "typed-secret");
    assert_eq!(input.prompts[1], "Entry password: ");
}

#[test]
fn lookup_gives_the_named_entry() {
    let v = vault();
    let mut input = Script::new(&[]);
    let e = lookup_entry(&v, "bank", &mut input).unwrap();
    assert_eq!(e.name(), "bank");
    assert_eq!(field_text(e, FieldSelector::Username), "me");
    assert!(input.prompts.is_empty());
    let mut input = Script::new(&["1"]);
    let e = lookup_entry(&v, "MAIL", &mut input).unwrap();
    assert_eq!(e.id(), v.entries()[1].id());
    assert_eq!(input.prompts, vec!["Choose one by index: ".to_string()]);
    assert!(matches!(lookup_entry(&v, "x", &mut Script::new(&[])), Err(HandlerError::NoEntryFound(_))));
}

#[test]
fn remove_named_asks_unless_told_yes() {
    let mut v = vault();
    let ids: Vec<u128> = v.entries().iter().map(|e| e.id()).collect();
    let mut input = Script::new(&["n"]);
    assert!(remove_named(&mut v, "bank", &mut input, false).unwrap().is_none());
    assert_eq!(input.prompts, vec!["Delete 'bank'? (y/N): ".to_string()]);
    assert_eq!(v.entries().len(), 3);
    let mut input = Script::new(&[]);
    let removed = remove_named(&mut v, "bank", &mut input, true).unwrap().unwrap();
    assert_eq!(removed.id(), ids[2]);
    assert!(input.prompts.is_empty());
    let left: Vec<u128> = v.entries().iter().map(|e| e.id()).collect();
    assert_eq!(left, vec![ids[0], ids[1]]);
    let mut input = Script::new(&["0", "Y"]);
    let removed = remove_named(&mut v, "mail", &mut input, false).unwrap().unwrap();
    assert_eq!(removed.id(), ids[0]);
    assert_eq!(input.prompts[1], "Delete 'mail'? (y/N): ");
    assert!(matches!(remove_named(&mut v, "bank", &mut Script::new(&[]), true), Err(HandlerError::NoEntryFound(_))));
}

#[test]
fn optional_prompt_never_gives_an_empty_value() {
    let mut input = Script::new(&["", "x"]);
    assert_eq!(input.prompt_optional_line("A: ").unwrap(), None);
    assert_eq!(input.prompt_optional_line("B: ").unwrap().as_deref(), Some("x"));
}
