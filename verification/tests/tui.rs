use cista::config::Config;
use cista::model::SecretString;
use cista::tui::app::App;
use cista::tui::keys::{
    Action, ActionMapper, Key, KeyBinding, KeyBindings, KeyPress, MOD_CONTROL, MOD_NONE, MOD_SHIFT,
};
use cista::tui::order::{sort_by_name, text_le};
use cista::tui::state::{
    AppSignal, ConfirmAction, Effect, FormMode, GenOption, Screen, TaskKind, TaskResult,
    VaultInfo, GEN_OPTION_COUNT,
};
use cista::{Entry, Vault};

const SEC: u128 = 1_000_000_000;

fn plain(code: Key) -> KeyPress {
    KeyPress { code, modifiers: MOD_NONE }
}

fn ch(c: char) -> KeyPress {
    plain(Key::Char(c))
}

fn info(name: &str) -> VaultInfo {
    VaultInfo {
        name: name.to_string(),
        path: format!("/vaults/{name}.cista"),
        last_opened: None,
        entry_count: None,
        size: 0,
    }
}

fn new_app() -> App {
    App::new(KeyBindings::default(), &Config::default(), 0)
}

fn press(app: &mut App, key: KeyPress, now: u128) -> (AppSignal, Option<Effect>) {
    app.handle_key(key, now)
}

fn type_text(app: &mut App, text: &str, now: u128) {
    for c in text.chars() {
        let (sig, eff) = press(app, ch(c), now);
        assert_eq!(sig, AppSignal::Continue);
        assert!(eff.is_none());
    }
}

fn entry(name: &str, user: Option<&str>, url: Option<&str>, pw: &str) -> Entry {
    Entry::new(
        name.to_string(),
        user.map(|u| u.to_string()),
        SecretString::from(pw.to_string()),
        url.map(|u| u.to_string()),
        None,
    )
    .unwrap()
}

fn sample_vault() -> Vault {
    let mut v = Vault::new();
    v.add_entry(entry("github", Some("octo"), Some("https://github.com"), "pw-gh"));
    v.add_entry(entry("gitlab", None, None, "pw-gl"));
    v.add_entry(entry("bank", Some("me"), None, "pw-bank"));
    v
}

/// An app on the entry list of `sample_vault`, unlocked at time 0.
fn unlocked_app() -> App {
    let mut app = new_app();
    app.set_vaults(vec![info("personal")]);
    press(&mut app, plain(Key::Enter), 0);
    type_text(&mut app, "master", 0);
    let (_, eff) = press(&mut app, plain(Key::Enter), 0);
    let (path, password) = match eff {
        Some(Effect::SpawnUnlock { path, password }) => (path, password),
        _ => panic!("expected an unlock task"),
    };
    assert_eq!(password.as_str(), "master");
    let eff = app.finish_task(
        TaskResult::Unlock { path, password, result: Ok(sample_vault()) },
        0,
    );
    assert!(matches!(eff, Some(Effect::RecordOpened { .. })));
    app
}

#[test]
fn default_bindings_and_mapping() {
    let b = KeyBindings::default();
    assert_eq!(b.quit, KeyBinding { code: Key::Char('q'), modifiers: MOD_NONE });
    assert_eq!(b.lock, KeyBinding { code: Key::Char('L'), modifiers: MOD_SHIFT });
    assert_eq!(b.save, KeyBinding { code: Key::Char('s'), modifiers: MOD_CONTROL });
    let m = ActionMapper::new(b);
    assert_eq!(m.map(ch('q')), Some(Action::Quit));
    assert_eq!(m.map(ch('k')), Some(Action::Up));
    assert_eq!(m.map(ch('j')), Some(Action::Down));
    assert_eq!(m.map(plain(Key::Up)), Some(Action::Up));
    assert_eq!(m.map(ch('s')), None);
    assert_eq!(m.map(KeyPress { code: Key::Char('q'), modifiers: MOD_CONTROL }), None);
    assert_eq!(m.map_global(plain(Key::Esc)), Some(Action::Back));
    assert_eq!(m.map_global(plain(Key::BackTab)), Some(Action::TabPrev));
    assert_eq!(
        m.map_global(KeyPress { code: Key::Char('s'), modifiers: MOD_CONTROL }),
        Some(Action::Save)
    );
    assert_eq!(m.map_global(ch('q')), None);
    assert!(b.quit.matches(ch('q')));
    assert!(!b.quit.matches(ch('Q')));
}

#[test]
fn labels() {
    assert_eq!(GenOption::at(0), GenOption::Length);
    assert_eq!(GenOption::at(GEN_OPTION_COUNT - 1), GenOption::ExcludeAmbiguous);
    assert_eq!(GenOption::Digits.label(), "Digits (0-9)");
    assert_eq!(GenOption::ExcludeAmbiguous.label(), "Exclude ambiguous (0/O, 1/l/I)");
    assert_eq!(TaskKind::Unlock.label(), "Unlocking vault…");
    assert_eq!(TaskKind::SaveEntryDelete.label(), "Saving vault…");
}

#[test]
fn quit_from_vault_list() {
    let mut app = new_app();
    assert_eq!(app.screen, Screen::VaultList);
    assert_eq!(app.auto_lock_seconds, 300);
    assert_eq!(app.gen_policy.length, 20);
    let (sig, eff) = press(&mut app, ch('q'), 5);
    assert_eq!(sig, AppSignal::Quit);
    assert!(eff.is_none());
    assert_eq!(app.last_activity, 5);
}

#[test]
fn vault_list_is_sorted_and_navigable() {
    let mut app = new_app();
    app.set_vaults(vec![info("work"), info("alpha"), info("personal")]);
    let names: Vec<&str> = app.vaults.iter().map(|v| v.name.as_str()).collect();
    assert_eq!(names, vec!["alpha", "personal", "work"]);
    press(&mut app, plain(Key::Down), 0);
    press(&mut app, ch('j'), 0);
    press(&mut app, ch('j'), 0);
    assert_eq!(app.vault_list_selected, 2);
    press(&mut app, ch('k'), 0);
    assert_eq!(app.vault_list_selected, 1);
    press(&mut app, plain(Key::Enter), 0);
    assert_eq!(app.screen, Screen::Unlock);
    assert_eq!(app.vault_path.as_deref(), Some("/vaults/personal.cista"));
}

#[test]
fn typing_q_on_unlock_screen_does_not_quit() {
    let mut app = new_app();
    app.set_vaults(vec![info("personal")]);
    press(&mut app, plain(Key::Enter), 0);
    let (sig, _) = press(&mut app, ch('q'), 0);
    assert_eq!(sig, AppSignal::Continue);
    assert_eq!(app.unlock_password, "q");
    press(&mut app, plain(Key::Backspace), 0);
    assert_eq!(app.unlock_password, "");
    type_text(&mut app, "abc", 0);
    press(&mut app, plain(Key::Esc), 0);
    assert_eq!(app.screen, Screen::VaultList);
    assert_eq!(app.unlock_password, "");
}

#[test]
fn unlock_flow_and_busy_input() {
    let mut app = new_app();
    app.set_vaults(vec![info("personal")]);
    press(&mut app, plain(Key::Enter), 0);
    type_text(&mut app, "pw", 0);
    let (_, eff) = press(&mut app, plain(Key::Enter), 1);
    assert!(matches!(eff, Some(Effect::SpawnUnlock { .. })));
    assert_eq!(app.pending, Some(TaskKind::Unlock));
    assert_eq!(app.unlock_password, "");
    // While the task runs, keys are ignored (even quit).
    let (sig, eff) = press(&mut app, ch('q'), 2);
    assert_eq!(sig, AppSignal::Continue);
    assert!(eff.is_none());
    assert_eq!(app.screen, Screen::Unlock);
    // A wrong password.
    let eff = app.finish_task(
        TaskResult::Unlock {
            path: "/vaults/personal.cista".to_string(),
            password: SecretString::from("pw".to_string()),
            result: Err("bad".to_string()),
        },
        3,
    );
    assert!(eff.is_none());
    assert_eq!(app.pending, None);
    assert_eq!(app.unlock_error.as_deref(), Some("Invalid master password"));
}

#[test]
fn unlocked_app_lists_entries() {
    let app = unlocked_app();
    assert_eq!(app.screen, Screen::EntryList);
    assert!(!app.locked);
    assert_eq!(app.entries.len(), 3);
    assert_eq!(app.status_message.as_ref().unwrap().text, "Vault unlocked");
    assert_eq!(app.entries[0].name, "github");
    assert_eq!(app.entries[0].username.as_deref(), Some("octo"));
}

#[test]
fn search_filters_and_esc_restores() {
    let mut app = unlocked_app();
    press(&mut app, ch('/'), 0);
    assert!(app.in_search);
    type_text(&mut app, "GIT", 0);
    assert_eq!(app.entries.len(), 2);
    type_text(&mut app, "h", 0);
    assert_eq!(app.entries.len(), 1);
    assert_eq!(app.entries[0].name, "github");
    press(&mut app, plain(Key::Backspace), 0);
    assert_eq!(app.entries.len(), 2);
    // Search also looks at the URL and username.
    press(&mut app, plain(Key::Esc), 0);
    assert_eq!(app.entries.len(), 3);
    assert!(!app.in_search);
    assert_eq!(app.all_entries.len(), 3);
    press(&mut app, ch('/'), 0);
    type_text(&mut app, "octo", 0);
    assert_eq!(app.entries.len(), 1);
}

#[test]
fn detail_copy_and_reveal() {
    let mut app = unlocked_app();
    press(&mut app, plain(Key::Down), 0);
    press(&mut app, plain(Key::Enter), 0);
    assert_eq!(app.screen, Screen::EntryDetail);
    assert_eq!(app.detail_entry_idx, Some(1));
    press(&mut app, ch(' '), 0);
    assert!(app.show_password);
    let (_, eff) = press(&mut app, ch('c'), 7);
    match eff {
        Some(Effect::CopyToClipboard { text, ok_message }) => {
            assert_eq!(text, "pw-gl");
            assert_eq!(ok_message, "Password copied to clipboard (15s)");
            app.on_copy_result(false, ok_message, 8);
            assert_eq!(app.status_error.as_ref().unwrap().text, "Clipboard unavailable");
        }
        _ => panic!("expected a clipboard copy"),
    }
    // gitlab has no username: the copy counts as done at once.
    let (_, eff) = press(&mut app, ch('u'), 9);
    assert!(eff.is_none());
    assert_eq!(
        app.status_message.as_ref().unwrap().text,
        "Username copied to clipboard (15s)"
    );
    assert!(app.status_error.is_none());
    press(&mut app, plain(Key::Esc), 0);
    assert_eq!(app.screen, Screen::EntryList);
    assert_eq!(app.detail_entry_idx, None);
}

#[test]
fn add_entry_flow() {
    let mut app = unlocked_app();
    press(&mut app, ch('a'), 0);
    assert_eq!(app.screen, Screen::EntryForm);
    assert_eq!(app.form_mode, FormMode::Add);
    type_text(&mut app, "  mail  ", 0);
    press(&mut app, plain(Key::Tab), 0);
    press(&mut app, plain(Key::Tab), 0);
    type_text(&mut app, "s3cret", 0);
    press(&mut app, plain(Key::Down), 0);
    type_text(&mut app, "s3cret", 0);
    let save = KeyPress { code: Key::Char('s'), modifiers: MOD_CONTROL };
    let (_, eff) = press(&mut app, save, 10);
    assert_eq!(app.form_fields.password, "");
    match eff {
        Some(Effect::SpawnSave { kind, path, vault, password }) => {
            assert_eq!(kind, TaskKind::SaveEntryAdd);
            assert_eq!(path, "/vaults/personal.cista");
            assert_eq!(password.as_str(), "master");
            assert_eq!(vault.entries().len(), 4);
            let e = &vault.entries()[3];
            assert_eq!(e.name(), "mail");
            assert_eq!(e.password().as_str(), "s3cret");
            assert_eq!(e.username(), None);
        }
        _ => panic!("expected a save task"),
    }
    assert_eq!(app.pending, Some(TaskKind::SaveEntryAdd));
    let eff = app.finish_task(TaskResult::SaveVault { result: Ok(()) }, 11);
    assert!(eff.is_none());
    assert_eq!(app.status_message.as_ref().unwrap().text, "Entry added");
    assert_eq!(app.screen, Screen::EntryList);
    assert_eq!(app.entries.len(), 4);
}

#[test]
fn entry_form_checks() {
    let mut app = unlocked_app();
    let save = KeyPress { code: Key::Char('s'), modifiers: MOD_CONTROL };
    press(&mut app, ch('a'), 0);
    press(&mut app, save, 0);
    assert_eq!(app.status_error.as_ref().unwrap().text, "Service name is required");
    type_text(&mut app, "x", 0);
    press(&mut app, save, 0);
    assert_eq!(
        app.status_error.as_ref().unwrap().text,
        "Password is required for new entries"
    );
    press(&mut app, plain(Key::Tab), 0);
    press(&mut app, plain(Key::Tab), 0);
    type_text(&mut app, "a", 0);
    press(&mut app, plain(Key::Tab), 0);
    type_text(&mut app, "b", 0);
    press(&mut app, save, 0);
    assert_eq!(app.status_error.as_ref().unwrap().text, "Passwords do not match");
    assert_eq!(app.form_fields.password, "");
    assert_eq!(app.form_fields.password_confirm, "");
    assert_eq!(app.form_fields.name, "x");
    press(&mut app, plain(Key::Esc), 0);
    assert_eq!(app.screen, Screen::EntryList);
    assert_eq!(app.form_fields.name, "");
}

#[test]
fn edit_entry_flow() {
    let mut app = unlocked_app();
    press(&mut app, plain(Key::Enter), 0);
    press(&mut app, ch('e'), 0);
    assert_eq!(app.screen, Screen::EntryForm);
    assert_eq!(app.form_mode, FormMode::Edit);
    assert_eq!(app.form_fields.name, "github");
    assert_eq!(app.form_fields.username, "octo");
    assert_eq!(app.form_fields.url, "https://github.com");
    press(&mut app, plain(Key::Tab), 0);
    press(&mut app, plain(Key::Backspace), 0);
    let save = KeyPress { code: Key::Char('s'), modifiers: MOD_CONTROL };
    let (_, eff) = press(&mut app, save, 0);
    match eff {
        Some(Effect::SpawnSave { kind, vault, .. }) => {
            assert_eq!(kind, TaskKind::SaveEntryEdit);
            let e = &vault.entries()[0];
            assert_eq!(e.username(), Some("oct"));
            assert_eq!(e.password().as_str(), "pw-gh");
        }
        _ => panic!("expected a save task"),
    }
    app.finish_task(TaskResult::SaveVault { result: Ok(()) }, 0);
    assert_eq!(app.status_message.as_ref().unwrap().text, "Entry saved");
    assert_eq!(app.screen, Screen::EntryDetail);
}

#[test]
fn delete_entry_flow() {
    let mut app = unlocked_app();
    press(&mut app, plain(Key::End), 0);
    assert_eq!(app.entry_list_selected, 2);
    press(&mut app, ch('d'), 0);
    assert_eq!(app.screen, Screen::Confirm);
    assert_eq!(app.confirm_message, "Delete entry 'bank'?");
    assert_eq!(app.confirm_on_yes, Some(ConfirmAction::DeleteEntry));
    let (_, eff) = press(&mut app, plain(Key::Enter), 0);
    match eff {
        Some(Effect::SpawnSave { kind, vault, .. }) => {
            assert_eq!(kind, TaskKind::SaveEntryDelete);
            assert_eq!(vault.entries().len(), 2);
        }
        _ => panic!("expected a save task"),
    }
    assert_eq!(app.screen, Screen::EntryList);
    assert_eq!(app.entries.len(), 2);
    app.finish_task(TaskResult::SaveVault { result: Err("disk full".to_string()) }, 0);
    assert_eq!(
        app.status_error.as_ref().unwrap().text,
        "Failed to save changes: disk full"
    );
}

#[test]
fn delete_vault_asks_first() {
    let mut app = new_app();
    app.set_vaults(vec![info("a"), info("b")]);
    press(&mut app, ch('j'), 0);
    press(&mut app, ch('d'), 0);
    assert_eq!(app.confirm_message, "Delete vault 'b'?");
    press(&mut app, plain(Key::Esc), 0);
    assert_eq!(app.screen, Screen::VaultList);
    assert_eq!(app.confirm_on_yes, None);
    press(&mut app, ch('d'), 0);
    let (_, eff) = press(&mut app, plain(Key::Enter), 4);
    match eff {
        Some(Effect::DeleteVaultFile { path }) => assert_eq!(path, "/vaults/b.cista"),
        _ => panic!("expected a file deletion"),
    }
    assert_eq!(app.status_message.as_ref().unwrap().text, "Vault deleted");
    assert_eq!(app.screen, Screen::VaultList);
}

#[test]
fn generate_screen() {
    let mut app = new_app();
    press(&mut app, ch('g'), 0);
    assert_eq!(app.screen, Screen::Generate);
    press(&mut app, plain(Key::Enter), 0);
    let p = app.gen_result.clone().unwrap();
    assert_eq!(p.chars().count(), 20);
    press(&mut app, plain(Key::Left), 0);
    assert_eq!(app.gen_policy.length, 19);
    for _ in 0..200 {
        press(&mut app, plain(Key::Right), 0);
    }
    assert_eq!(app.gen_policy.length, 128);
    for _ in 0..200 {
        press(&mut app, plain(Key::Left), 0);
    }
    assert_eq!(app.gen_policy.length, 4);
    press(&mut app, plain(Key::Down), 0);
    press(&mut app, ch(' '), 0);
    assert!(!app.gen_policy.include_lowercase);
    for _ in 0..10 {
        press(&mut app, plain(Key::Down), 0);
    }
    assert_eq!(app.gen_selected, GEN_OPTION_COUNT - 1);
    press(&mut app, plain(Key::Right), 0);
    assert!(app.gen_policy.exclude_ambiguous);
    press(&mut app, ch('r'), 0);
    let p = app.gen_result.clone().unwrap();
    assert_eq!(p.chars().count(), 4);
    assert!(p.chars().all(|c| !c.is_ascii_lowercase()));
    let (_, eff) = press(&mut app, ch('c'), 0);
    assert!(matches!(eff, Some(Effect::CopyToClipboard { .. })));
    press(&mut app, plain(Key::Esc), 0);
    assert_eq!(app.screen, Screen::VaultList);
    assert!(app.gen_result.is_none());
}

#[test]
fn generate_error_and_copy_without_result() {
    let mut app = new_app();
    press(&mut app, ch('g'), 0);
    let (_, eff) = press(&mut app, ch('c'), 0);
    assert!(eff.is_none());
    assert_eq!(app.status_error.as_ref().unwrap().text, "Generate a password first");
    for i in 1..5 {
        press(&mut app, plain(Key::Down), 0);
        assert_eq!(app.gen_selected, i);
        press(&mut app, ch(' '), 0);
    }
    press(&mut app, plain(Key::Enter), 0);
    assert_eq!(
        app.status_error.as_ref().unwrap().text,
        "password policy resulted in an empty character set"
    );
}

#[test]
fn new_vault_flow() {
    let mut app = new_app();
    press(&mut app, ch('n'), 0);
    assert_eq!(app.screen, Screen::NewVault);
    type_text(&mut app, " work ", 0);
    press(&mut app, plain(Key::Tab), 0);
    type_text(&mut app, "pw", 0);
    press(&mut app, plain(Key::Tab), 0);
    type_text(&mut app, "px", 0);
    let save = KeyPress { code: Key::Char('s'), modifiers: MOD_CONTROL };
    press(&mut app, save, 0);
    assert_eq!(app.status_error.as_ref().unwrap().text, "Passwords do not match");
    assert_eq!(app.new_vault_fields.name, "");
    type_text(&mut app, "work", 0);
    press(&mut app, plain(Key::Tab), 0);
    type_text(&mut app, "pw", 0);
    press(&mut app, plain(Key::Tab), 0);
    type_text(&mut app, "pw", 0);
    let (_, eff) = press(&mut app, save, 0);
    match eff {
        Some(Effect::SpawnCreateVault { name, path, password }) => {
            assert_eq!(name, "work");
            assert!(path.ends_with("cista/vaults/work.cista"));
            assert_eq!(password.as_str(), "pw");
        }
        None => {
            // No data directory here: the error is shown instead.
            assert!(app.status_error.as_ref().unwrap().text.starts_with("I/O error: "));
            return;
        }
        _ => panic!("unexpected effect"),
    }
    let eff = app.finish_task(
        TaskResult::CreateVault { name: "work".to_string(), result: Ok(()) },
        0,
    );
    assert!(matches!(eff, Some(Effect::ReloadVaults)));
    assert_eq!(app.status_message.as_ref().unwrap().text, "Vault 'work' created");
    assert_eq!(app.screen, Screen::VaultList);
}

#[test]
fn lock_and_auto_lock() {
    let mut app = unlocked_app();
    app.check_auto_lock(299 * SEC);
    assert!(!app.locked);
    app.check_auto_lock(300 * SEC);
    assert!(app.locked);
    assert_eq!(app.screen, Screen::Locked);
    assert!(app.vault.is_none());
    assert!(app.master_password.is_none());
    press(&mut app, plain(Key::Enter), 0);
    assert_eq!(app.screen, Screen::Unlock);

    let mut app = unlocked_app();
    press(&mut app, KeyPress { code: Key::Char('L'), modifiers: MOD_SHIFT }, 0);
    assert!(app.locked);
    assert_eq!(app.screen, Screen::Locked);
}

#[test]
fn status_notices_expire() {
    let mut app = unlocked_app();
    app.expire_status(2 * SEC);
    assert!(app.status_message.is_some());
    app.expire_status(3 * SEC);
    assert!(app.status_message.is_none());
}

#[test]
fn help_toggles() {
    let mut app = unlocked_app();
    press(&mut app, ch('?'), 0);
    assert_eq!(app.screen, Screen::Help);
    press(&mut app, plain(Key::End), 0);
    assert_eq!(app.help_scroll, u16::MAX);
    press(&mut app, plain(Key::Home), 0);
    assert_eq!(app.help_scroll, 0);
    press(&mut app, ch('?'), 0);
    assert_eq!(app.screen, Screen::EntryList);
}

#[test]
fn esc_on_entry_list_closes_the_vault() {
    let mut app = unlocked_app();
    press(&mut app, plain(Key::Esc), 0);
    assert_eq!(app.screen, Screen::VaultList);
    assert!(app.vault.is_none());
    assert!(!app.locked);
}

#[test]
fn text_order() {
    assert!(text_le("abc", "abd"));
    assert!(text_le("ab", "abc"));
    assert!(!text_le("b", "abc"));
    assert!(text_le("B", "a"));
    let sorted = sort_by_name(vec![info("b"), info("a"), info("c")]);
    let names: Vec<&str> = sorted.iter().map(|v| v.name.as_str()).collect();
    assert_eq!(names, vec!["a", "b", "c"]);
}

#[test]
fn tab_round_trip_in_forms() {
    let mut app = unlocked_app();
    press(&mut app, ch('a'), 0);
    for start in 0..6 {
        assert_eq!(app.form_field_idx, start);
        press(&mut app, plain(Key::Tab), 0);
        press(&mut app, plain(Key::BackTab), 0);
        assert_eq!(app.form_field_idx, start);
        press(&mut app, plain(Key::Tab), 0);
    }
    assert_eq!(app.form_field_idx, 0);
    press(&mut app, plain(Key::BackTab), 0);
    assert_eq!(app.form_field_idx, 5);
}

#[test]
fn paging_keeps_selection_in_list() {
    let mut app = unlocked_app();
    press(&mut app, plain(Key::PageDown), 0);
    assert_eq!(app.entry_list_selected, 2);
    assert_eq!(app.entry_list_page, 0);
    press(&mut app, plain(Key::Down), 0);
    assert_eq!(app.entry_list_selected, 2);
    press(&mut app, plain(Key::PageUp), 0);
    assert_eq!(app.entry_list_selected, 0);
    press(&mut app, plain(Key::Up), 0);
    assert_eq!(app.entry_list_selected, 0);
}

#[test]
fn key_panics_only_past_the_last_generate_row() {
    let mut app = new_app();
    press(&mut app, ch('g'), 0);
    assert!(!app.key_panics(plain(Key::Left), 0));
    app.gen_selected = GEN_OPTION_COUNT;
    assert!(app.key_panics(plain(Key::Left), 0));
    assert!(!app.key_panics(plain(Key::Down), 0));
}

#[test]
fn masks_one_bullet_per_character() {
    assert_eq!(cista::tui::mask::mask_password("héllo"), "•••••");
    assert_eq!(cista::tui::mask::mask_password(""), "");
}

#[test]
fn edit_with_confirm_but_no_password_is_a_mismatch() {
    let mut app = unlocked_app();
    press(&mut app, plain(Key::Enter), 0);
    press(&mut app, ch('e'), 0);
    assert_eq!(app.form_mode, FormMode::Edit);
    for _ in 0..3 {
        press(&mut app, plain(Key::Tab), 0);
    }
    type_text(&mut app, "x", 0);
    assert_eq!(app.form_fields.password, "");
    assert_eq!(app.form_fields.password_confirm, "x");
    let save = KeyPress { code: Key::Char('s'), modifiers: MOD_CONTROL };
    let (_, eff) = press(&mut app, save, 0);
    assert!(eff.is_none());
    assert_eq!(app.status_error.as_ref().unwrap().text, "Passwords do not match");
    assert!(app.pending.is_none());
    assert_eq!(app.screen, Screen::EntryForm);
    assert_eq!(app.vault.as_ref().unwrap().entries()[0].password().as_str(), "pw-gh");
}

#[test]
fn recompute_shows_matching_rows_from_the_top() {
    let mut app = unlocked_app();
    app.search_query = "GIT".to_string();
    app.entry_list_selected = 2;
    app.recompute_filtered_entries();
    assert_eq!(app.entry_list_selected, 0);
    assert_eq!(app.entry_list_page, 0);
    assert!(app.entries.iter().all(|r| r.name.to_lowercase().contains("git")
        || r.username.as_deref().unwrap_or("").to_lowercase().contains("git")
        || r.url.as_deref().unwrap_or("").to_lowercase().contains("git")));
    assert_eq!(app.entries.len(), 2);
    assert_eq!(app.all_entries.len(), 3);
    app.search_query.clear();
    app.recompute_filtered_entries();
    assert_eq!(app.entries.len(), 3);
}
