use cista::password_gen::{
    active_categories, generate_password, password_feedback, PasswordPolicy, AMBIGUOUS, DIGITS,
    LOWERCASE, SYMBOLS, UPPERCASE,
};
use cista::CoreError;

#[test]
fn generates_password_of_requested_length() {
    let policy = PasswordPolicy {
        length: 16,
        ..Default::default()
    };
    let password = generate_password(&policy).unwrap();
    assert_eq!(password.chars().count(), 16);
}

#[test]
fn fails_with_zero_length() {
    let policy = PasswordPolicy {
        length: 0,
        ..Default::default()
    };
    assert!(matches!(
        generate_password(&policy),
        Err(CoreError::ZeroLength)
    ));
}

#[test]
fn fails_with_empty_charset() {
    let policy = PasswordPolicy {
        include_lowercase: false,
        include_uppercase: false,
        include_digits: false,
        include_symbols: false,
        ..Default::default()
    };
    assert!(matches!(
        generate_password(&policy),
        Err(CoreError::EmptyCharset)
    ));
}

#[test]
fn excludes_ambiguous_characters_when_requested() {
    let policy = PasswordPolicy {
        length: 200,
        exclude_ambiguous: true,
        ..Default::default()
    };
    let password = generate_password(&policy).unwrap();
    assert!(!password.chars().any(|c| AMBIGUOUS.contains(c)));
}

#[test]
fn guarantees_all_active_categories_present() {
    let policy = PasswordPolicy {
        length: 20,
        ..Default::default()
    };
    let password = generate_password(&policy).unwrap();

    assert!(password.chars().any(|c| LOWERCASE.contains(c)));
    assert!(password.chars().any(|c| UPPERCASE.contains(c)));
    assert!(password.chars().any(|c| DIGITS.contains(c)));
    assert!(password.chars().any(|c| SYMBOLS.contains(c)));
}

#[test]
fn flags_weak_and_common_passwords() {
    assert!(!password_feedback("123456").is_empty());
    assert!(!password_feedback("abc").is_empty());
    assert!(!password_feedback("aaaaaaaaaaaa").is_empty()); // single class
    assert!(password_feedback("Str0ng-Passw0rd!").is_empty());
}

#[test]
fn feedback_lists_warnings_in_order() {
    assert_eq!(
        password_feedback("123456"),
        vec![
            "this is an extremely common password",
            "password is shorter than 10 characters",
            "password uses only one character class (mix cases, digits and symbols)",
        ]
    );
    assert_eq!(
        password_feedback("abcdefghijkl"),
        vec![
            "password is shorter than 16 characters",
            "password uses only one character class (mix cases, digits and symbols)",
        ]
    );
    assert_eq!(password_feedback("abcdefghijklmnopQ"), Vec::<&str>::new());
}

#[test]
fn active_categories_follow_policy() {
    let all = active_categories(&PasswordPolicy::default());
    assert_eq!(all, vec![LOWERCASE, UPPERCASE, DIGITS, SYMBOLS]);
    let no_ambiguous = active_categories(&PasswordPolicy {
        include_uppercase: false,
        include_symbols: false,
        exclude_ambiguous: true,
        ..Default::default()
    });
    assert_eq!(no_ambiguous, vec!["abcdefghijkmnopqrstuvwxyz", "23456789"]);
}

#[test]
fn short_password_keeps_first_categories() {
    let policy = PasswordPolicy {
        length: 2,
        include_uppercase: false,
        ..Default::default()
    };
    let p = generate_password(&policy).unwrap();
    assert_eq!(p.chars().count(), 2);
    assert!(p.chars().any(|c| LOWERCASE.contains(c)));
    assert!(p.chars().any(|c| DIGITS.contains(c)));
}
