//! The screen state machine of the terminal UI. Each key press, finished
//! background task and clock tick moves the state on; outside work (drawing,
//! threads, the clipboard, the file system) is asked for through an
//! [`Effect`] and done by the event loop.
use super::keys::{
    spec_bound_table, spec_global_table, spec_resolve, Action, ActionMapper, Key, KeyBindings,
    KeyPress, MOD_ALT, MOD_CONTROL,
};
use super::order::{sort_by_name, spec_sorted_by_name, spec_stable_arrangement};
use super::state::{
    spec_effect_view, spec_empty_form, spec_empty_new_vault, spec_gen_option, spec_gen_policy,
    spec_notice_view, ConfirmAction, Effect, EffectView, EntryRow, EntryRowView, FormFields,
    FormFieldsView, FormMode, GenOption, GenPolicy, NewVaultFields, NewVaultFieldsView, Screen,
    StatusNotice, StatusView, TaskKind, TaskResult, TaskResultView, VaultInfo, VaultInfoView,
    AppSignal, GEN_OPTION_COUNT, STATUS_LIFETIME_NANOS,
};
use crate::config::Config;
use crate::model::{lemma_first_unique, spec_first_index, spec_first_with_id, spec_has_id, spec_is_v4_uuid};
use crate::password_gen::{
    generate_password, spec_active_categories, spec_valid_password, PasswordPolicy,
};
use crate::paths::{join, spec_join, vaults_dir};
use crate::repl::{session_expired, spec_session_expired};
use crate::model::{spec_find, spec_opt_view, Entry, EntryView, SecretString, Vault, VaultView};
use crate::model::spec_field_matches;
use crate::text::{
    contains, pop_char, push_char, spec_contains, spec_or_empty, spec_pop, spec_to_lowercase,
    spec_trim, str_eq, take_string, to_lowercase, to_owned_string, trim, wipe,
};
use vstd::prelude::*;

verus! {

/// The whole state of the terminal UI.
pub struct App {
    pub screen: Screen,
    pub previous_screen: Option<Screen>,
    // Vault list
    pub vaults: Vec<VaultInfo>,
    pub vault_list_selected: usize,
    // Unlock
    pub unlock_password: String,
    pub unlock_error: Option<String>,
    // Session (while unlocked)
    pub vault_path: Option<String>,
    pub vault: Option<Vault>,
    pub master_password: Option<SecretString>,
    pub locked: bool,
    /// Monotonic time of the last key press, in nanoseconds.
    pub last_activity: u128,
    pub auto_lock_seconds: u64,
    // Entry list
    pub all_entries: Vec<EntryRow>,
    pub entries: Vec<EntryRow>,
    pub entry_list_selected: usize,
    pub entry_list_page: usize,
    pub per_page: usize,
    pub search_query: String,
    pub in_search: bool,
    // Entry detail
    pub detail_entry_idx: Option<usize>,
    pub show_password: bool,
    // Entry form (add/edit)
    pub form_mode: FormMode,
    pub form_fields: FormFields,
    pub form_field_idx: usize,
    // New vault form
    pub new_vault_fields: NewVaultFields,
    pub new_vault_field_idx: usize,
    // Generate
    pub gen_policy: GenPolicy,
    pub gen_selected: usize,
    pub gen_result: Option<String>,
    /// The password length the generate screen opens with.
    pub default_generate_length: usize,
    // Confirm dialog
    pub confirm_message: String,
    pub confirm_on_yes: Option<ConfirmAction>,
    // Help
    pub help_scroll: u16,
    // Input
    pub mapper: ActionMapper,
    // Runtime
    pub status_message: Option<StatusNotice>,
    pub status_error: Option<StatusNotice>,
    /// The background task in flight, if any.
    pub pending: Option<TaskKind>,
}

/// The abstract content of an [`App`]: every field by its view.
pub struct AppView {
    pub screen: Screen,
    pub previous_screen: Option<Screen>,
    pub vaults: Seq<VaultInfoView>,
    pub vault_list_selected: usize,
    pub unlock_password: Seq<char>,
    pub unlock_error: Option<Seq<char>>,
    pub vault_path: Option<Seq<char>>,
    pub vault: Option<VaultView>,
    pub master_password: Option<Seq<char>>,
    pub locked: bool,
    pub last_activity: u128,
    pub auto_lock_seconds: u64,
    pub all_entries: Seq<EntryRowView>,
    pub entries: Seq<EntryRowView>,
    pub entry_list_selected: usize,
    pub entry_list_page: usize,
    pub per_page: usize,
    pub search_query: Seq<char>,
    pub in_search: bool,
    pub detail_entry_idx: Option<usize>,
    pub show_password: bool,
    pub form_mode: FormMode,
    pub form_fields: FormFieldsView,
    pub form_field_idx: usize,
    pub new_vault_fields: NewVaultFieldsView,
    pub new_vault_field_idx: usize,
    pub gen_policy: GenPolicy,
    pub gen_selected: usize,
    pub gen_result: Option<Seq<char>>,
    pub default_generate_length: usize,
    pub confirm_message: Seq<char>,
    pub confirm_on_yes: Option<ConfirmAction>,
    pub help_scroll: u16,
    pub bindings: KeyBindings,
    pub status_message: Option<StatusView>,
    pub status_error: Option<StatusView>,
    pub pending: Option<TaskKind>,
}

/// The views of a list of vault files.
pub open spec fn spec_vault_infos(v: Seq<VaultInfo>) -> Seq<VaultInfoView> {
    v.map_values(|i: VaultInfo| i@)
}

/// The views of a list of entry rows.
pub open spec fn spec_rows_view(v: Seq<EntryRow>) -> Seq<EntryRowView> {
    v.map_values(|r: EntryRow| r@)
}

impl View for App {
    type V = AppView;

    open spec fn view(&self) -> AppView {
        AppView {
            screen: self.screen,
            previous_screen: self.previous_screen,
            vaults: spec_vault_infos(self.vaults@),
            vault_list_selected: self.vault_list_selected,
            unlock_password: self.unlock_password@,
            unlock_error: spec_opt_view(self.unlock_error),
            vault_path: spec_opt_view(self.vault_path),
            vault: spec_opt_view(self.vault),
            master_password: spec_opt_view(self.master_password),
            locked: self.locked,
            last_activity: self.last_activity,
            auto_lock_seconds: self.auto_lock_seconds,
            all_entries: spec_rows_view(self.all_entries@),
            entries: spec_rows_view(self.entries@),
            entry_list_selected: self.entry_list_selected,
            entry_list_page: self.entry_list_page,
            per_page: self.per_page,
            search_query: self.search_query@,
            in_search: self.in_search,
            detail_entry_idx: self.detail_entry_idx,
            show_password: self.show_password,
            form_mode: self.form_mode,
            form_fields: self.form_fields@,
            form_field_idx: self.form_field_idx,
            new_vault_fields: self.new_vault_fields@,
            new_vault_field_idx: self.new_vault_field_idx,
            gen_policy: self.gen_policy,
            gen_selected: self.gen_selected,
            gen_result: spec_opt_view(self.gen_result),
            default_generate_length: self.default_generate_length,
            confirm_message: self.confirm_message@,
            confirm_on_yes: self.confirm_on_yes,
            help_scroll: self.help_scroll,
            bindings: self.mapper.bindings,
            status_message: spec_notice_view(self.status_message),
            status_error: spec_notice_view(self.status_error),
            pending: self.pending,
        }
    }
}

/// The screen to return to, or `d` when none was recorded.
pub open spec fn spec_prev_or(s: AppView, d: Screen) -> Screen {
    match s.previous_screen {
        Some(p) => p,
        None => d,
    }
}

/// The state with a fresh status message (which clears any error).
pub open spec fn spec_set_status(s: AppView, text: Seq<char>, now: u128) -> AppView {
    AppView { status_message: Some(StatusView { text, at: now }), status_error: None, ..s }
}

/// The state with a fresh error message (which clears any status message).
pub open spec fn spec_set_error(s: AppView, text: Seq<char>, now: u128) -> AppView {
    AppView { status_error: Some(StatusView { text, at: now }), status_message: None, ..s }
}

/// The entry form emptied, focus on its first field.
pub open spec fn spec_reset_form(s: AppView) -> AppView {
    AppView { form_fields: spec_empty_form(), form_field_idx: 0, ..s }
}

/// The new-vault form emptied, focus on its first field.
pub open spec fn spec_reset_new_vault(s: AppView) -> AppView {
    AppView { new_vault_fields: spec_empty_new_vault(), new_vault_field_idx: 0, ..s }
}

/// Locking drops the vault and the master password, shows the lock screen,
/// leaves search and empties the entry form.
pub open spec fn spec_lock_vault(s: AppView) -> AppView {
    spec_reset_form(
        AppView {
            vault: None,
            master_password: None,
            locked: true,
            screen: Screen::Locked,
            in_search: false,
            search_query: Seq::empty(),
            ..s
        },
    )
}

/// Leaving the entry form returns to the screen it was opened from and
/// empties it.
pub open spec fn spec_back_from_form(s: AppView) -> AppView {
    spec_reset_form(AppView { screen: spec_prev_or(s, Screen::EntryList), ..s })
}

/// The state of a freshly started terminal UI.
pub open spec fn spec_initial(bindings: KeyBindings, config: Config, now: u128) -> AppView {
    AppView {
        screen: Screen::VaultList,
        previous_screen: None,
        vaults: Seq::empty(),
        vault_list_selected: 0,
        unlock_password: Seq::empty(),
        unlock_error: None,
        vault_path: None,
        vault: None,
        master_password: None,
        locked: false,
        last_activity: now,
        auto_lock_seconds: config.auto_lock_seconds,
        all_entries: Seq::empty(),
        entries: Seq::empty(),
        entry_list_selected: 0,
        entry_list_page: 0,
        per_page: 20,
        search_query: Seq::empty(),
        in_search: false,
        detail_entry_idx: None,
        show_password: false,
        form_mode: FormMode::Add,
        form_fields: spec_empty_form(),
        form_field_idx: 0,
        new_vault_fields: spec_empty_new_vault(),
        new_vault_field_idx: 0,
        gen_policy: spec_gen_policy(config.default_generate_length),
        gen_selected: 0,
        gen_result: None,
        default_generate_length: config.default_generate_length,
        confirm_message: Seq::empty(),
        confirm_on_yes: None,
        help_scroll: 0,
        bindings,
        status_message: None,
        status_error: None,
        pending: None,
    }
}


/// An entry row matches a lower-cased query through its name, username or URL.
pub open spec fn spec_row_matches(r: EntryRowView, q: Seq<char>) -> bool {
    ||| spec_contains(spec_to_lowercase(r.name), q)
    ||| spec_field_matches(r.username, q)
    ||| spec_field_matches(r.url, q)
}

/// The rows shown for a search query: all of them when the query is empty,
/// else those matching its lower-cased form, in order.
pub open spec fn spec_filter_rows(rows: Seq<EntryRowView>, query: Seq<char>) -> Seq<EntryRowView> {
    if query.len() == 0 {
        rows
    } else {
        rows.filter(|r: EntryRowView| spec_row_matches(r, spec_to_lowercase(query)))
    }
}

/// The shown rows rebuilt from all rows and the query; the selection goes
/// back to the top. The list of all rows is never changed.
pub open spec fn spec_recompute(s: AppView) -> AppView {
    AppView {
        entries: spec_filter_rows(s.all_entries, s.search_query),
        entry_list_selected: 0,
        entry_list_page: 0,
        ..s
    }
}

/// The page that holds the selected row.
pub open spec fn spec_adjust_page(s: AppView) -> AppView {
    AppView {
        entry_list_page: (s.entry_list_selected / (if s.per_page >= 1 {
            s.per_page
        } else {
            1
        })) as usize,
        ..s
    }
}

/// The selected row of the entry list, kept within the list.
pub open spec fn spec_selected_idx(s: AppView) -> Option<usize> {
    if s.entries.len() == 0 {
        None
    } else if s.entry_list_selected < s.entries.len() {
        Some(s.entry_list_selected)
    } else {
        Some((s.entries.len() - 1) as usize)
    }
}

/// Focus on the next field of the current form, wrapping around.
pub open spec fn spec_tab_next(s: AppView) -> AppView {
    match s.screen {
        Screen::EntryForm => AppView { form_field_idx: ((s.form_field_idx + 1) % 6) as usize, ..s },
        Screen::NewVault => AppView {
            new_vault_field_idx: ((s.new_vault_field_idx + 1) % 3) as usize,
            ..s
        },
        _ => s,
    }
}

/// Focus on the previous field of the current form, wrapping around.
pub open spec fn spec_tab_prev(s: AppView) -> AppView {
    match s.screen {
        Screen::EntryForm => AppView { form_field_idx: ((s.form_field_idx + 5) % 6) as usize, ..s },
        Screen::NewVault => AppView {
            new_vault_field_idx: ((s.new_vault_field_idx + 2) % 3) as usize,
            ..s
        },
        _ => s,
    }
}

/// `?` opens help, remembering the screen; on help it returns there.
pub open spec fn spec_help(s: AppView) -> AppView {
    if s.screen == Screen::Help {
        AppView { screen: spec_prev_or(s, Screen::VaultList), ..s }
    } else {
        AppView { previous_screen: Some(s.screen), screen: Screen::Help, ..s }
    }
}

/// Locking works from the entry list and the entry detail only.
pub open spec fn spec_lock(s: AppView) -> AppView {
    if s.screen == Screen::EntryList || s.screen == Screen::EntryDetail {
        spec_lock_vault(s)
    } else {
        s
    }
}

/// Up: the previous vault or row, the previous form field or generate
/// row, or one line of help up.
pub open spec fn spec_up(s: AppView) -> AppView {
    match s.screen {
        Screen::VaultList => if s.vault_list_selected > 0 {
            AppView { vault_list_selected: (s.vault_list_selected - 1) as usize, ..s }
        } else {
            s
        },
        Screen::EntryList => if s.entry_list_selected > 0 {
            spec_adjust_page(AppView { entry_list_selected: (s.entry_list_selected - 1) as usize, ..s })
        } else {
            s
        },
        Screen::EntryForm | Screen::NewVault => spec_tab_prev(s),
        Screen::Generate => AppView {
            gen_selected: if s.gen_selected > 0 {
                (s.gen_selected - 1) as usize
            } else {
                0
            },
            ..s
        },
        Screen::Help => if s.help_scroll > 0 {
            AppView { help_scroll: (s.help_scroll - 1) as u16, ..s }
        } else {
            s
        },
        _ => s,
    }
}

/// Down: the next vault or row, the next form field or generate row, or
/// one line of help down.
pub open spec fn spec_down(s: AppView) -> AppView {
    match s.screen {
        Screen::VaultList => if s.vault_list_selected + 1 < s.vaults.len() {
            AppView { vault_list_selected: (s.vault_list_selected + 1) as usize, ..s }
        } else {
            s
        },
        Screen::EntryList => if s.entry_list_selected + 1 < s.entries.len() {
            spec_adjust_page(AppView { entry_list_selected: (s.entry_list_selected + 1) as usize, ..s })
        } else {
            s
        },
        Screen::EntryForm | Screen::NewVault => spec_tab_next(s),
        Screen::Generate => AppView {
            gen_selected: if s.gen_selected + 1 < GEN_OPTION_COUNT {
                (s.gen_selected + 1) as usize
            } else {
                (GEN_OPTION_COUNT - 1) as usize
            },
            ..s
        },
        Screen::Help => AppView {
            help_scroll: if s.help_scroll < u16::MAX {
                (s.help_scroll + 1) as u16
            } else {
                u16::MAX
            },
            ..s
        },
        _ => s,
    }
}

/// Flips the boolean setting of a row of the generate screen.
pub open spec fn spec_toggle(p: GenPolicy, o: GenOption) -> GenPolicy {
    match o {
        GenOption::Lowercase => GenPolicy { include_lowercase: !p.include_lowercase, ..p },
        GenOption::Uppercase => GenPolicy { include_uppercase: !p.include_uppercase, ..p },
        GenOption::Digits => GenPolicy { include_digits: !p.include_digits, ..p },
        GenOption::Symbols => GenPolicy { include_symbols: !p.include_symbols, ..p },
        GenOption::ExcludeAmbiguous => GenPolicy { exclude_ambiguous: !p.exclude_ambiguous, ..p },
        GenOption::Length => p,
    }
}

/// Left on the generate screen: the length goes down to no less than 4; a
/// category row toggles.
pub open spec fn spec_left(s: AppView) -> AppView {
    if s.screen == Screen::Generate {
        let o = spec_gen_option(s.gen_selected as int);
        if o == GenOption::Length {
            let l = s.gen_policy.length;
            AppView {
                gen_policy: GenPolicy {
                    length: if l >= 5 {
                        (l - 1) as usize
                    } else {
                        4
                    },
                    ..s.gen_policy
                },
                ..s
            }
        } else {
            AppView { gen_policy: spec_toggle(s.gen_policy, o), ..s }
        }
    } else {
        s
    }
}

/// Right on the generate screen: the length goes up to no more than 128; a
/// category row toggles.
pub open spec fn spec_right(s: AppView) -> AppView {
    if s.screen == Screen::Generate {
        let o = spec_gen_option(s.gen_selected as int);
        if o == GenOption::Length {
            let l = s.gen_policy.length;
            AppView {
                gen_policy: GenPolicy {
                    length: if l < 128 {
                        (l + 1) as usize
                    } else {
                        128
                    },
                    ..s.gen_policy
                },
                ..s
            }
        } else {
            AppView { gen_policy: spec_toggle(s.gen_policy, o), ..s }
        }
    } else {
        s
    }
}

/// Page Up: a page of rows up, or fifteen lines of help.
pub open spec fn spec_page_up(s: AppView) -> AppView {
    if s.screen == Screen::EntryList {
        spec_adjust_page(
            AppView {
                entry_list_selected: if s.entry_list_selected >= s.per_page {
                    (s.entry_list_selected - s.per_page) as usize
                } else {
                    0
                },
                ..s
            },
        )
    } else if s.screen == Screen::Help {
        AppView {
            help_scroll: if s.help_scroll >= 15 {
                (s.help_scroll - 15) as u16
            } else {
                0
            },
            ..s
        }
    } else {
        s
    }
}

/// Page Down: a page of rows down (no further than the last), or fifteen
/// lines of help.
pub open spec fn spec_page_down(s: AppView) -> AppView {
    if s.screen == Screen::EntryList {
        let last: int = if s.entries.len() > 0 {
            s.entries.len() - 1
        } else {
            0
        };
        spec_adjust_page(
            AppView {
                entry_list_selected: if s.entry_list_selected + s.per_page <= last {
                    (s.entry_list_selected + s.per_page) as usize
                } else {
                    last as usize
                },
                ..s
            },
        )
    } else if s.screen == Screen::Help {
        AppView {
            help_scroll: if s.help_scroll + 15 <= u16::MAX {
                (s.help_scroll + 15) as u16
            } else {
                u16::MAX
            },
            ..s
        }
    } else {
        s
    }
}

/// Home: the first row, or the top of help.
pub open spec fn spec_home(s: AppView) -> AppView {
    if s.screen == Screen::EntryList {
        AppView { entry_list_selected: 0, entry_list_page: 0, ..s }
    } else if s.screen == Screen::Help {
        AppView { help_scroll: 0, ..s }
    } else {
        s
    }
}

/// End selects the last row; on help it scrolls past the bottom, which the
/// drawing clamps.
pub open spec fn spec_end(s: AppView) -> AppView {
    if s.screen == Screen::EntryList {
        spec_adjust_page(
            AppView {
                entry_list_selected: if s.entries.len() > 0 {
                    (s.entries.len() - 1) as usize
                } else {
                    0
                },
                ..s
            },
        )
    } else if s.screen == Screen::Help {
        AppView { help_scroll: u16::MAX, ..s }
    } else {
        s
    }
}

/// `/` starts typing a search on the entry list.
pub open spec fn spec_search(s: AppView) -> AppView {
    if s.screen == Screen::EntryList {
        AppView { in_search: true, ..s }
    } else {
        s
    }
}

/// `a` opens an empty add form from the entry list.
pub open spec fn spec_add(s: AppView) -> AppView {
    if s.screen == Screen::EntryList {
        AppView {
            screen: Screen::EntryForm,
            previous_screen: Some(Screen::EntryList),
            form_mode: FormMode::Add,
            form_fields: spec_empty_form(),
            form_field_idx: 0,
            ..s
        }
    } else {
        s
    }
}

/// `g` opens the generate screen with the default policy, from any screen.
pub open spec fn spec_generate_screen(s: AppView) -> AppView {
    if s.screen == Screen::Generate {
        s
    } else {
        AppView {
            previous_screen: Some(s.screen),
            screen: Screen::Generate,
            gen_policy: spec_gen_policy(s.default_generate_length),
            gen_result: None,
            ..s
        }
    }
}

/// `n` opens an empty new-vault form from the vault list.
pub open spec fn spec_new_vault(s: AppView) -> AppView {
    if s.screen == Screen::VaultList {
        spec_reset_new_vault(
            AppView { previous_screen: Some(Screen::VaultList), screen: Screen::NewVault, ..s },
        )
    } else {
        s
    }
}

/// Space shows or hides the password on the detail screen, and toggles the
/// focused row on the generate screen.
pub open spec fn spec_reveal(s: AppView) -> AppView {
    match s.screen {
        Screen::EntryDetail => AppView { show_password: !s.show_password, ..s },
        Screen::Generate => AppView {
            gen_policy: spec_toggle(s.gen_policy, spec_gen_option(s.gen_selected as int)),
            ..s
        },
        _ => s,
    }
}

/// Esc goes one step back; from the entry list it closes the vault, and
/// while searching it first clears the search.
pub open spec fn spec_back(s: AppView) -> AppView {
    match s.screen {
        Screen::Unlock => AppView { screen: Screen::VaultList, unlock_password: Seq::empty(), ..s },
        Screen::EntryList => if s.in_search {
            spec_recompute(AppView { search_query: Seq::empty(), in_search: false, ..s })
        } else {
            AppView {
                screen: Screen::VaultList,
                vault: None,
                master_password: None,
                locked: false,
                in_search: false,
                search_query: Seq::empty(),
                ..s
            }
        },
        Screen::EntryDetail => AppView {
            screen: Screen::EntryList,
            detail_entry_idx: None,
            show_password: false,
            ..s
        },
        Screen::EntryForm => spec_back_from_form(s),
        Screen::NewVault => AppView { screen: Screen::VaultList, ..spec_reset_new_vault(s) },
        Screen::Generate => AppView {
            screen: spec_prev_or(s, Screen::VaultList),
            gen_result: None,
            ..s
        },
        Screen::Locked => AppView { screen: Screen::Unlock, unlock_password: Seq::empty(), ..s },
        Screen::Confirm => AppView {
            screen: spec_prev_or(s, Screen::EntryList),
            confirm_on_yes: None,
            ..s
        },
        Screen::Help => AppView { screen: spec_prev_or(s, Screen::VaultList), ..s },
        Screen::VaultList => s,
    }
}


/// The row the entry list shows for an entry.
pub open spec fn spec_entry_row(e: EntryView) -> EntryRowView {
    EntryRowView { id: e.id, name: e.name, username: e.username, url: e.url }
}

/// The rows of all entries of the open vault, in order.
pub open spec fn spec_vault_rows(v: Option<VaultView>) -> Seq<EntryRowView> {
    match v {
        Some(v) => v.entries.map_values(|e: EntryView| spec_entry_row(e)),
        None => Seq::empty(),
    }
}

/// All rows rebuilt from the open vault, then filtered by the query.
pub open spec fn spec_load_entries(s: AppView) -> AppView {
    spec_recompute(AppView { all_entries: spec_vault_rows(s.vault), ..s })
}

/// Whether the current screen has a focused text field.
pub open spec fn spec_has_buffer(s: AppView) -> bool {
    match s.screen {
        Screen::Unlock | Screen::EntryForm | Screen::NewVault => true,
        Screen::EntryList => s.in_search,
        _ => false,
    }
}

/// A key press without Control or Alt.
pub open spec fn spec_is_plain(key: KeyPress) -> bool {
    key.modifiers & MOD_CONTROL == 0 && key.modifiers & MOD_ALT == 0
}

/// Whether the key is typed into the focused text field instead of being
/// mapped to an action.
pub open spec fn spec_edits_buffer(s: AppView, key: KeyPress) -> bool {
    &&& spec_has_buffer(s)
    &&& spec_is_plain(key)
    &&& (key.code is Char || key.code is Backspace)
}

/// A character key appends it; Backspace removes the last character.
pub open spec fn spec_edit_text(t: Seq<char>, code: Key) -> Seq<char> {
    match code {
        Key::Char(c) => t.push(c),
        _ => spec_pop(t),
    }
}

/// The focused text field of the current screen, edited.
pub open spec fn spec_buffer_edit(s: AppView, code: Key) -> AppView {
    let f = s.form_fields;
    let n = s.new_vault_fields;
    match s.screen {
        Screen::Unlock => AppView { unlock_password: spec_edit_text(s.unlock_password, code), ..s },
        Screen::EntryList => AppView { search_query: spec_edit_text(s.search_query, code), ..s },
        Screen::EntryForm => AppView {
            form_fields: if s.form_field_idx == 0 {
                FormFieldsView { name: spec_edit_text(f.name, code), ..f }
            } else if s.form_field_idx == 1 {
                FormFieldsView { username: spec_edit_text(f.username, code), ..f }
            } else if s.form_field_idx == 2 {
                FormFieldsView { password: spec_edit_text(f.password, code), ..f }
            } else if s.form_field_idx == 3 {
                FormFieldsView { password_confirm: spec_edit_text(f.password_confirm, code), ..f }
            } else if s.form_field_idx == 4 {
                FormFieldsView { url: spec_edit_text(f.url, code), ..f }
            } else {
                FormFieldsView { notes: spec_edit_text(f.notes, code), ..f }
            },
            ..s
        },
        Screen::NewVault => AppView {
            new_vault_fields: if s.new_vault_field_idx == 0 {
                NewVaultFieldsView { name: spec_edit_text(n.name, code), ..n }
            } else if s.new_vault_field_idx == 1 {
                NewVaultFieldsView { password: spec_edit_text(n.password, code), ..n }
            } else {
                NewVaultFieldsView { confirm: spec_edit_text(n.confirm, code), ..n }
            },
            ..s
        },
        _ => s,
    }
}

/// Typing into the focused field; while a search is active the shown rows
/// follow.
pub open spec fn spec_after_edit(s: AppView, code: Key) -> AppView {
    let s2 = spec_buffer_edit(s, code);
    if s2.in_search {
        spec_recompute(s2)
    } else {
        s2
    }
}

/// The row a delete or copy acts on: the one on the detail screen, else the
/// selected one.
pub open spec fn spec_target_idx(s: AppView) -> Option<usize> {
    match s.detail_entry_idx {
        Some(i) => Some(i),
        None => spec_selected_idx(s),
    }
}

/// `d` asks for confirmation before deleting the selected vault or entry.
pub open spec fn spec_delete(s: AppView) -> AppView {
    match s.screen {
        Screen::VaultList => if s.vault_list_selected < s.vaults.len() {
            AppView {
                confirm_message: "Delete vault '"@ + s.vaults[s.vault_list_selected as int].name
                    + "'?"@,
                confirm_on_yes: Some(ConfirmAction::DeleteVault),
                previous_screen: Some(Screen::VaultList),
                screen: Screen::Confirm,
                ..s
            }
        } else {
            s
        },
        Screen::EntryList | Screen::EntryDetail => match spec_target_idx(s) {
            Some(i) => if i < s.entries.len() {
                AppView {
                    confirm_message: "Delete entry '"@ + s.entries[i as int].name + "'?"@,
                    confirm_on_yes: Some(ConfirmAction::DeleteEntry),
                    previous_screen: Some(s.screen),
                    screen: Screen::Confirm,
                    ..s
                }
            } else {
                s
            },
            None => s,
        },
        _ => s,
    }
}

/// The entry shown on the detail screen, looked up in the open vault.
pub open spec fn spec_detail_entry(s: AppView) -> Option<EntryView> {
    if s.screen == Screen::EntryDetail {
        match s.detail_entry_idx {
            Some(i) => if i < s.entries.len() {
                match s.vault {
                    Some(v) => spec_find(v.entries, s.entries[i as int].id),
                    None => None,
                }
            } else {
                None
            },
            None => None,
        }
    } else {
        None
    }
}

/// `e` on the detail screen opens the edit form, filled with the entry's
/// current values; the password fields start empty.
pub open spec fn spec_open_edit(s: AppView) -> AppView {
    match spec_detail_entry(s) {
        Some(e) => AppView {
            form_mode: FormMode::Edit,
            form_fields: FormFieldsView {
                name: e.name,
                username: spec_or_empty(e.username),
                password: Seq::empty(),
                password_confirm: Seq::empty(),
                url: spec_or_empty(e.url),
                notes: spec_or_empty(e.notes),
            },
            form_field_idx: 0,
            previous_screen: Some(Screen::EntryDetail),
            screen: Screen::EntryForm,
            ..s
        },
        None => s,
    }
}

/// The field of an entry that a copy action takes.
#[derive(Debug, Clone, Copy, PartialEq, Eq, Structural)]
pub enum CopyField {
    Password,
    Username,
    Url,
}

/// The text to copy, if the entry has that field.
pub open spec fn spec_copy_text(e: EntryView, f: CopyField) -> Option<Seq<char>> {
    match f {
        CopyField::Password => Some(e.password),
        CopyField::Username => e.username,
        CopyField::Url => e.url,
    }
}

/// The status message once a field was copied.
pub open spec fn spec_copied_message(f: CopyField) -> Seq<char> {
    match f {
        CopyField::Password => "Password copied to clipboard (15s)"@,
        CopyField::Username => "Username copied to clipboard (15s)"@,
        CopyField::Url => "URL copied to clipboard (15s)"@,
    }
}

/// Copying a field of the entry on the detail screen asks for the clipboard;
/// an absent field counts as copied at once. Elsewhere nothing happens. On
/// the generate screen the password action copies the generated password.
pub open spec fn spec_copy(s: AppView, f: CopyField, now: u128) -> (AppView, Option<EffectView>) {
    if f == CopyField::Password && s.screen == Screen::Generate {
        match s.gen_result {
            Some(p) => (s, Some(EffectView::CopyToClipboard { text: p, ok_message: spec_copied_message(f) })),
            None => (spec_set_error(s, "Generate a password first"@, now), None),
        }
    } else {
        match spec_detail_entry(s) {
            Some(e) => match spec_copy_text(e, f) {
                Some(t) => (s, Some(EffectView::CopyToClipboard { text: t, ok_message: spec_copied_message(f) })),
                None => (spec_set_status(s, spec_copied_message(f), now), None),
            },
            None => (s, None),
        }
    }
}

/// Enter on the unlock screen hands the typed password to a background unlock
/// and empties the field.
pub open spec fn spec_try_unlock(s: AppView) -> (AppView, Option<EffectView>) {
    match s.vault_path {
        None => (AppView { unlock_error: Some("No vault selected"@), ..s }, None),
        Some(p) => (
            AppView {
                unlock_password: Seq::empty(),
                unlock_error: None,
                pending: Some(TaskKind::Unlock),
                ..s
            },
            Some(EffectView::SpawnUnlock { path: p, password: s.unlock_password }),
        ),
    }
}

/// The password policy of the generate screen's settings.
pub open spec fn spec_policy_of(g: GenPolicy) -> PasswordPolicy {
    PasswordPolicy {
        length: g.length,
        include_lowercase: g.include_lowercase,
        include_uppercase: g.include_uppercase,
        include_digits: g.include_digits,
        include_symbols: g.include_symbols,
        exclude_ambiguous: g.exclude_ambiguous,
    }
}

/// A possible outcome of generating a password with `p`: a valid password,
/// or the message of the error that `p` causes.
pub open spec fn spec_generation_outcome(p: PasswordPolicy, r: Result<Seq<char>, Seq<char>>) -> bool {
    if p.length == 0 {
        r == Err::<Seq<char>, Seq<char>>("password length must be greater than zero"@)
    } else if spec_active_categories(p).len() == 0 {
        r == Err::<Seq<char>, Seq<char>>("password policy resulted in an empty character set"@)
    } else {
        r matches Ok(pw) && spec_valid_password(p, pw)
    }
}

/// The generate screen shows the new password, or the error.
pub open spec fn spec_after_generate(s: AppView, r: Result<Seq<char>, Seq<char>>, now: u128) -> AppView {
    match r {
        Ok(pw) => AppView { gen_result: Some(pw), ..s },
        Err(m) => spec_set_error(s, m, now),
    }
}

/// Generating a password: the result is random, so this holds of some
/// outcome that the policy allows.
pub open spec fn spec_generate_step(s: AppView, now: u128, t: AppView) -> bool {
    exists|r: Result<Seq<char>, Seq<char>>|
        spec_generation_outcome(spec_policy_of(s.gen_policy), r) && t == spec_after_generate(
            s,
            r,
            now,
        )
}

/// Saving in the background needs an open vault, its path and its master
/// password; without them the save reports an error.
pub open spec fn spec_start_save(s: AppView, kind: TaskKind, now: u128) -> (AppView, Option<EffectView>) {
    match (s.vault, s.vault_path, s.master_password) {
        (Some(v), Some(p), Some(pw)) => (
            AppView { pending: Some(kind), ..s },
            Some(EffectView::SpawnSave { kind, path: p, vault: v, password: pw }),
        ),
        _ => (spec_set_error(s, "No open vault"@, now), None),
    }
}

/// Deleting the entry the confirmation was about: it leaves the vault at
/// once, the rows are rebuilt, and the vault is saved in the background.
pub open spec fn spec_delete_target_entry(s: AppView, now: u128) -> (AppView, Option<EffectView>) {
    match spec_target_idx(s) {
        Some(i) => if i < s.entries.len() {
            match s.vault {
                Some(v) => {
                    let id = s.entries[i as int].id;
                    if spec_has_id(v.entries, id) {
                        spec_start_save(
                            spec_load_entries(
                                AppView {
                                    vault: Some(
                                        VaultView {
                                            entries: v.entries.remove(spec_first_index(v.entries, id)),
                                            ..v
                                        },
                                    ),
                                    ..s
                                },
                            ),
                            TaskKind::SaveEntryDelete,
                            now,
                        )
                    } else {
                        (s, None)
                    }
                },
                None => (s, None),
            }
        } else {
            (s, None)
        },
        None => (s, None),
    }
}

/// "Yes" in the confirmation dialog: carry out the action, then close the
/// dialog.
pub open spec fn spec_confirm_yes(s: AppView, now: u128) -> (AppView, Option<EffectView>) {
    let (s1, eff) = match s.confirm_on_yes {
        Some(ConfirmAction::DeleteEntry) => spec_delete_target_entry(s, now),
        Some(ConfirmAction::DeleteVault) => if s.vault_list_selected < s.vaults.len() {
            (
                spec_set_status(s, "Vault deleted"@, now),
                Some(EffectView::DeleteVaultFile { path: s.vaults[s.vault_list_selected as int].path }),
            )
        } else {
            (s, None)
        },
        None => (s, None),
    };
    (
        AppView {
            confirm_on_yes: None,
            screen: spec_prev_or(s1, Screen::EntryList),
            detail_entry_idx: None,
            show_password: false,
            ..s1
        },
        eff,
    )
}

/// An optional field from a form field: empty means absent.
pub open spec fn spec_opt_text(t: Seq<char>) -> Option<Seq<char>> {
    if t.len() == 0 {
        None
    } else {
        Some(t)
    }
}

/// The message of the first check of the entry form that fails, if any. A
/// confirm value without a password, or a password without a confirm value,
/// is always a mismatch.
pub open spec fn spec_form_error(s: AppView) -> Option<Seq<char>> {
    let f = s.form_fields;
    if spec_trim(f.name).len() == 0 {
        Some("Service name is required"@)
    } else if f.password.len() > 0 && f.password != f.password_confirm {
        Some("Passwords do not match"@)
    } else if f.password_confirm.len() == 0 && f.password.len() > 0 {
        Some("Re-type the password to confirm"@)
    } else if f.password_confirm.len() > 0 && f.password.len() == 0 {
        Some("Passwords do not match"@)
    } else if f.password.len() == 0 && s.form_mode == FormMode::Add {
        Some("Password is required for new entries"@)
    } else {
        None
    }
}

/// A save attempt takes both password fields out of the form, whatever
/// happens next.
pub open spec fn spec_form_taken(s: AppView) -> AppView {
    AppView {
        form_fields: FormFieldsView {
            password: Seq::empty(),
            password_confirm: Seq::empty(),
            ..s.form_fields
        },
        ..s
    }
}

/// `e` is a new entry made of the form's values, with a fresh id and time.
pub open spec fn spec_new_entry_from(e: EntryView, f: FormFieldsView) -> bool {
    &&& e.name == spec_trim(spec_trim(f.name))
    &&& e.username == spec_opt_text(f.username)
    &&& e.password == f.password
    &&& e.url == spec_opt_text(f.url)
    &&& e.notes == spec_opt_text(f.notes)
    &&& e.created_at == e.updated_at
    &&& spec_is_v4_uuid(e.id)
}

/// `e2` is `e` changed to the form's values at some time; an empty password
/// field keeps the old password.
pub open spec fn spec_edited_entry(e: EntryView, f: FormFieldsView, e2: EntryView) -> bool {
    let n = spec_trim(spec_trim(f.name));
    e2 == EntryView {
        name: if n.len() > 0 {
            n
        } else {
            e.name
        },
        username: spec_opt_text(f.username),
        password: if f.password.len() > 0 {
            f.password
        } else {
            e.password
        },
        url: spec_opt_text(f.url),
        notes: spec_opt_text(f.notes),
        updated_at: e2.updated_at,
        ..e
    }
}

/// Saving the entry form: the checks, then the entry is added or changed in
/// the open vault, which is then saved in the background.
pub open spec fn spec_save_entry_step(s: AppView, now: u128, t: AppView, eff: Option<EffectView>) -> bool {
    let f = s.form_fields;
    let s0 = spec_form_taken(s);
    match spec_form_error(s) {
        Some(m) => t == spec_set_error(s0, m, now) && eff is None,
        None => match s0.vault {
            None => t == s0 && eff is None,
            Some(v) => if s.form_mode == FormMode::Add {
                if spec_trim(spec_trim(f.name)).len() == 0 {
                    t == spec_set_error(s0, "entry name cannot be empty"@, now) && eff is None
                } else {
                    exists|e: EntryView|
                        spec_new_entry_from(e, f) && (t, eff) == spec_start_save(
                            AppView {
                                vault: Some(VaultView { entries: v.entries.push(e), ..v }),
                                ..s0
                            },
                            TaskKind::SaveEntryAdd,
                            now,
                        )
                }
            } else {
                match s.detail_entry_idx {
                    None => t == spec_set_error(s0, "No entry selected"@, now) && eff is None,
                    Some(idx) => {
                        let id = s.entries[idx as int].id;
                        if spec_has_id(v.entries, id) {
                            let i = spec_first_index(v.entries, id);
                            exists|e2: EntryView|
                                spec_edited_entry(v.entries[i], f, e2) && (t, eff)
                                    == spec_start_save(
                                    AppView {
                                        vault: Some(
                                            VaultView { entries: v.entries.update(i, e2), ..v },
                                        ),
                                        ..s0
                                    },
                                    TaskKind::SaveEntryEdit,
                                    now,
                                )
                        } else {
                            t == spec_set_error(s0, "Entry not found"@, now) && eff is None
                        }
                    },
                }
            },
        },
    }
}

/// Saving an edited entry looks its row up by position; a position past the
/// shown rows (possible when a search narrowed them meanwhile) panics.
pub open spec fn spec_save_panics(s: AppView) -> bool {
    &&& spec_form_error(s) is None
    &&& s.vault is Some
    &&& s.form_mode == FormMode::Edit
    &&& s.detail_entry_idx matches Some(idx) && idx >= s.entries.len()
}

/// A possible outcome of looking up the vaults directory: a path ending in
/// `cista/vaults`, or the message of an I/O error.
pub open spec fn spec_dir_outcome(d: Result<Seq<char>, Seq<char>>) -> bool {
    match d {
        Ok(dir) => exists|b: Seq<char>| dir == spec_join(spec_join(b, "cista"@), "vaults"@),
        Err(m) => m.len() >= 11 && m.take(11) == "I/O error: "@,
    }
}

/// Creating a vault from the new-vault form: the checks, then a background
/// task writes `<name>.cista` in the vaults directory.
pub open spec fn spec_create_vault_step(s: AppView, now: u128, t: AppView, eff: Option<EffectView>) -> bool {
    let f = s.new_vault_fields;
    let name = spec_trim(f.name);
    if name.len() == 0 {
        t == spec_reset_new_vault(spec_set_error(s, "Vault name is required"@, now)) && eff is None
    } else if f.password.len() == 0 {
        t == spec_reset_new_vault(spec_set_error(s, "Password is required"@, now)) && eff is None
    } else if f.password != f.confirm {
        t == spec_reset_new_vault(spec_set_error(s, "Passwords do not match"@, now)) && eff is None
    } else {
        exists|d: Result<Seq<char>, Seq<char>>|
            spec_dir_outcome(d) && match d {
                Err(m) => t == spec_reset_new_vault(spec_set_error(s, m, now)) && eff is None,
                Ok(dir) => t == (AppView {
                    new_vault_fields: NewVaultFieldsView { password: Seq::empty(), ..f },
                    pending: Some(TaskKind::CreateVault),
                    ..s
                }) && eff == Some(
                    EffectView::SpawnCreateVault {
                        name,
                        path: spec_join(dir, name + ".cista"@),
                        password: f.password,
                    },
                ),
            }
    }
}

/// Enter: open the selected vault or entry, submit the unlock password,
/// move to the next form field, generate, or answer "yes".
pub open spec fn spec_enter_step(s: AppView, now: u128, t: AppView, eff: Option<EffectView>) -> bool {
    match s.screen {
        Screen::VaultList => eff is None && t == (if s.vault_list_selected < s.vaults.len() {
            AppView {
                vault_path: Some(s.vaults[s.vault_list_selected as int].path),
                screen: Screen::Unlock,
                unlock_password: Seq::empty(),
                unlock_error: None,
                ..s
            }
        } else {
            s
        }),
        Screen::Unlock => (t, eff) == spec_try_unlock(s),
        Screen::EntryList => eff is None && t == match spec_selected_idx(s) {
            Some(i) => AppView {
                detail_entry_idx: Some(i),
                show_password: false,
                screen: Screen::EntryDetail,
                ..s
            },
            None => s,
        },
        Screen::EntryForm | Screen::NewVault => eff is None && t == spec_tab_next(s),
        Screen::Generate => eff is None && spec_generate_step(s, now, t),
        Screen::Locked => eff is None && t == AppView {
            screen: Screen::Unlock,
            unlock_password: Seq::empty(),
            ..s
        },
        Screen::Confirm => (t, eff) == spec_confirm_yes(s, now),
        _ => eff is None && t == s,
    }
}

/// What a finished background task does to the state, and the outside work
/// it asks for.
pub open spec fn spec_apply_task_result(s: AppView, kind: TaskKind, r: TaskResultView, now: u128) -> (AppView, Option<EffectView>) {
    match kind {
        TaskKind::Unlock => match r {
            TaskResultView::Unlock { path, password, result } => match result {
                Ok(v) => {
                    let s1 = spec_load_entries(
                        AppView {
                            vault_path: Some(path),
                            vault: Some(v),
                            master_password: Some(password),
                            locked: false,
                            last_activity: now,
                            ..s
                        },
                    );
                    (
                        spec_set_status(
                            AppView { screen: Screen::EntryList, ..s1 },
                            "Vault unlocked"@,
                            now,
                        ),
                        Some(EffectView::RecordOpened { path }),
                    )
                },
                Err(_) => (AppView { unlock_error: Some("Invalid master password"@), ..s }, None),
            },
            _ => (s, None),
        },
        TaskKind::CreateVault => match r {
            TaskResultView::CreateVault { name, result } => match result {
                Ok(()) => (
                    spec_set_status(
                        AppView { screen: Screen::VaultList, ..spec_reset_new_vault(s) },
                        "Vault '"@ + name + "' created"@,
                        now,
                    ),
                    Some(EffectView::ReloadVaults),
                ),
                Err(e) => (spec_set_error(s, "Failed to create vault: "@ + e, now), None),
            },
            _ => (s, None),
        },
        _ => match r {
            TaskResultView::SaveVault { result } => match result {
                Ok(()) => {
                    let s1 = spec_load_entries(s);
                    if kind == TaskKind::SaveEntryAdd {
                        (spec_back_from_form(spec_set_status(s1, "Entry added"@, now)), None)
                    } else if kind == TaskKind::SaveEntryEdit {
                        (spec_back_from_form(spec_set_status(s1, "Entry saved"@, now)), None)
                    } else {
                        (spec_set_status(s1, "Entry deleted"@, now), None)
                    }
                },
                Err(e) => (spec_set_error(s, "Failed to save changes: "@ + e, now), None),
            },
            _ => (s, None),
        },
    }
}

/// A finished task clears the spinner, then its result is applied. Without
/// a task in flight nothing happens.
pub open spec fn spec_finish_task(s: AppView, r: TaskResultView, now: u128) -> (AppView, Option<EffectView>) {
    match s.pending {
        Some(kind) => spec_apply_task_result(AppView { pending: None, ..s }, kind, r, now),
        None => (s, None),
    }
}

/// Time passed between `since` and `now`; never negative.
pub open spec fn spec_elapsed(now: u128, since: u128) -> u128 {
    if now >= since {
        (now - since) as u128
    } else {
        0
    }
}

/// The session locks itself once idle for the configured time, unless a
/// background task is running.
pub open spec fn spec_auto_lock(s: AppView, now: u128) -> AppView {
    if s.pending is None && spec_session_expired(
        s.locked,
        s.auto_lock_seconds,
        spec_elapsed(now, s.last_activity),
    ) {
        spec_lock_vault(s)
    } else {
        s
    }
}

/// Whether a notice has been shown for its whole lifetime.
pub open spec fn spec_notice_expired(n: Option<StatusView>, now: u128) -> bool {
    match n {
        Some(x) => spec_elapsed(now, x.at) >= STATUS_LIFETIME_NANOS,
        None => false,
    }
}

/// Notices that outlived their lifetime disappear.
pub open spec fn spec_expire_status(s: AppView, now: u128) -> AppView {
    AppView {
        status_message: if spec_notice_expired(s.status_message, now) {
            None
        } else {
            s.status_message
        },
        status_error: if spec_notice_expired(s.status_error, now) {
            None
        } else {
            s.status_error
        },
        ..s
    }
}

/// The actions that change the state without time, chance or outside work.
pub open spec fn spec_simple_action(s: AppView, a: Action) -> AppView {
    match a {
        Action::Help => spec_help(s),
        Action::Lock => spec_lock(s),
        Action::Up => spec_up(s),
        Action::Down => spec_down(s),
        Action::Left => spec_left(s),
        Action::Right => spec_right(s),
        Action::PageUp => spec_page_up(s),
        Action::PageDown => spec_page_down(s),
        Action::Home => spec_home(s),
        Action::End => spec_end(s),
        Action::Back => spec_back(s),
        Action::Search => spec_search(s),
        Action::Add => spec_add(s),
        Action::Generate => spec_generate_screen(s),
        Action::Delete => spec_delete(s),
        Action::Edit => spec_open_edit(s),
        Action::Reveal => spec_reveal(s),
        Action::NewVault => spec_new_vault(s),
        Action::TabNext => spec_tab_next(s),
        Action::TabPrev => spec_tab_prev(s),
        _ => s,
    }
}

/// What carrying out action `a` at time `now` may do: the new state `t`, the
/// signal and the outside work asked for.
pub open spec fn spec_action_step(
    s: AppView,
    a: Action,
    now: u128,
    t: AppView,
    sig: AppSignal,
    eff: Option<EffectView>,
) -> bool {
    match a {
        Action::Quit => sig == AppSignal::Quit && t == s && eff is None,
        Action::Enter => sig == AppSignal::Continue && spec_enter_step(s, now, t, eff),
        Action::Reroll => sig == AppSignal::Continue && eff is None && if s.screen
            == Screen::Generate {
            spec_generate_step(s, now, t)
        } else {
            t == s
        },
        Action::Save => sig == AppSignal::Continue && match s.screen {
            Screen::EntryForm => spec_save_entry_step(s, now, t, eff),
            Screen::NewVault => spec_create_vault_step(s, now, t, eff),
            _ => t == s && eff is None,
        },
        Action::CopyPassword => sig == AppSignal::Continue && (t, eff) == spec_copy(
            s,
            CopyField::Password,
            now,
        ),
        Action::CopyUsername => sig == AppSignal::Continue && (t, eff) == spec_copy(
            s,
            CopyField::Username,
            now,
        ),
        Action::CopyUrl => sig == AppSignal::Continue && (t, eff) == spec_copy(
            s,
            CopyField::Url,
            now,
        ),
        _ => sig == AppSignal::Continue && eff is None && t == spec_simple_action(s, a),
    }
}

/// The inputs on which carrying out `a` panics: reading a row of the generate
/// screen past its last one, or saving an edit whose row is gone.
pub open spec fn spec_action_panics(s: AppView, a: Action) -> bool {
    ||| (a == Action::Left || a == Action::Right || a == Action::Reveal) && s.screen
        == Screen::Generate && s.gen_selected >= GEN_OPTION_COUNT
    ||| a == Action::Save && s.screen == Screen::EntryForm && spec_save_panics(s)
}

/// The state once a key press was registered as activity.
pub open spec fn spec_touch(s: AppView, now: u128) -> AppView {
    AppView { last_activity: now, ..s }
}

/// Whether a key press is typed into the focused field: no task is running
/// and the key is neither a global key nor modified by Control or Alt.
pub open spec fn spec_key_types(s: AppView, key: KeyPress) -> bool {
    &&& s.pending is None
    &&& spec_resolve(key, spec_global_table(s.bindings)) is None
    &&& spec_edits_buffer(s, key)
}

/// The action a key press carries out, if any: global keys first, then (when
/// the key was not typed into a field) all other bindings. While a task runs
/// every key is ignored.
pub open spec fn spec_key_action(s: AppView, key: KeyPress) -> Option<Action> {
    if s.pending is Some {
        None
    } else {
        match spec_resolve(key, spec_global_table(s.bindings)) {
            Some(a) => Some(a),
            None => if spec_edits_buffer(s, key) {
                None
            } else {
                spec_resolve(key, spec_bound_table(s.bindings))
            },
        }
    }
}

/// Handling a key press at time `now`.
pub open spec fn spec_key_step(
    s: AppView,
    key: KeyPress,
    now: u128,
    t: AppView,
    sig: AppSignal,
    eff: Option<EffectView>,
) -> bool {
    let s1 = spec_touch(s, now);
    if spec_key_types(s1, key) {
        sig == AppSignal::Continue && eff is None && t == spec_after_edit(s1, key.code)
    } else {
        match spec_key_action(s1, key) {
            Some(a) => spec_action_step(s1, a, now, t, sig, eff),
            None => sig == AppSignal::Continue && eff is None && t == s1,
        }
    }
}

/// The key presses on which handling panics.
pub open spec fn spec_key_panics(s: AppView, key: KeyPress, now: u128) -> bool {
    match spec_key_action(spec_touch(s, now), key) {
        Some(a) => spec_action_panics(spec_touch(s, now), a),
        None => false,
    }
}

/// Whether a notice has been shown for its whole lifetime.
fn notice_expired(n: &Option<StatusNotice>, now: u128) -> (b: bool)
    ensures
        b == spec_notice_expired(spec_notice_view(*n), now),
{
    match n {
        Some(x) => {
            let elapsed = if now >= x.at {
                now - x.at
            } else {
                0
            };
            elapsed >= STATUS_LIFETIME_NANOS
        },
        None => false,
    }
}

/// A form field as an optional value: empty means absent.
fn opt_text(t: String) -> (r: Option<String>)
    ensures
        spec_opt_view(r) == spec_opt_text(t@),
{
    if t.as_str().is_empty() {
        None
    } else {
        Some(t)
    }
}

/// A key typed into a text field.
fn edit_text(t: &mut String, code: Key)
    requires
        code is Char || code is Backspace,
    ensures
        final(t)@ == spec_edit_text(old(t)@, code),
{
    match code {
        Key::Char(c) => push_char(t, c),
        _ => pop_char(t),
    }
}

/// An owned copy of an optional text.
fn opt_string(o: Option<&str>) -> (r: Option<String>)
    ensures
        spec_opt_view(r) == spec_opt_view(o),
{
    match o {
        Some(t) => Some(to_owned_string(t)),
        None => None,
    }
}

/// An owned copy of an optional text, empty when absent.
fn str_or_empty(o: Option<&str>) -> (r: String)
    ensures
        r@ == spec_or_empty(spec_opt_view(o)),
{
    match o {
        Some(t) => to_owned_string(t),
        None => String::new(),
    }
}

/// The status message once a field was copied.
fn copied_message(f: CopyField) -> (r: String)
    ensures
        r@ == spec_copied_message(f),
{
    match f {
        CopyField::Password => to_owned_string("Password copied to clipboard (15s)"),
        CopyField::Username => to_owned_string("Username copied to clipboard (15s)"),
        CopyField::Url => to_owned_string("URL copied to clipboard (15s)"),
    }
}

/// Whether an optional field contains the lower-cased query.
fn field_contains(field: &Option<String>, q: &str) -> (b: bool)
    ensures
        b == spec_field_matches(spec_opt_view(*field), q@),
{
    match field {
        Some(f) => {
            let lower = to_lowercase(f.as_str());
            contains(lower.as_str(), q)
        },
        None => false,
    }
}

/// Whether a row matches the lower-cased query `q`.
fn row_matches(r: &EntryRow, q: &str) -> (b: bool)
    ensures
        b == spec_row_matches(r@, q@),
{
    let name = to_lowercase(r.name.as_str());
    contains(name.as_str(), q) || field_contains(&r.username, q) || field_contains(&r.url, q)
}

impl App {
    /// A new terminal UI on the vault list, with the auto-lock timeout and
    /// generated-password length of `config`; `now` is the monotonic time in
    /// nanoseconds. The vault list starts empty: see [`App::set_vaults`].
    pub fn new(bindings: KeyBindings, config: &Config, now: u128) -> (app: App)
        ensures
            app@ == spec_initial(bindings, *config, now),
    {
        let app = App {
            screen: Screen::VaultList,
            previous_screen: None,
            vaults: Vec::new(),
            vault_list_selected: 0,
            unlock_password: String::new(),
            unlock_error: None,
            vault_path: None,
            vault: None,
            master_password: None,
            locked: false,
            last_activity: now,
            auto_lock_seconds: config.auto_lock_seconds,
            all_entries: Vec::new(),
            entries: Vec::new(),
            entry_list_selected: 0,
            entry_list_page: 0,
            per_page: 20,
            search_query: String::new(),
            in_search: false,
            detail_entry_idx: None,
            show_password: false,
            form_mode: FormMode::Add,
            form_fields: FormFields::default(),
            form_field_idx: 0,
            new_vault_fields: NewVaultFields::default(),
            new_vault_field_idx: 0,
            gen_policy: GenPolicy::with_length(config.default_generate_length),
            gen_selected: 0,
            gen_result: None,
            default_generate_length: config.default_generate_length,
            confirm_message: String::new(),
            confirm_on_yes: None,
            help_scroll: 0,
            mapper: ActionMapper::new(bindings),
            status_message: None,
            status_error: None,
            pending: None,
        };
        assert(app@.vaults =~= Seq::<VaultInfoView>::empty());
        assert(app@.all_entries =~= Seq::<EntryRowView>::empty());
        assert(app@.entries =~= Seq::<EntryRowView>::empty());
        app
    }

    /// Rebuilds the shown rows from all rows and the current query: all rows
    /// for an empty query, else those whose name, username or URL contains
    /// the lower-cased query, in order; the selection goes back to the top.
    pub fn recompute_filtered_entries(&mut self)
        ensures
            final(self)@ == spec_recompute(old(self)@),
            final(self)@.all_entries == old(self)@.all_entries,
            old(self)@.search_query.len() == 0 ==> final(self)@.entries == old(self)@.all_entries,
            old(self)@.search_query.len() > 0 ==> final(self)@.entries == old(self)@.all_entries.filter(
                |r: EntryRowView| spec_row_matches(r, spec_to_lowercase(old(self)@.search_query)),
            ),
            final(self)@.entry_list_selected == 0,
            final(self)@.entry_list_page == 0,
    {
        let ghost all = spec_rows_view(self.all_entries@);
        let ghost query = self.search_query@;
        let mut shown: Vec<EntryRow> = Vec::new();
        let n = self.all_entries.len();
        if self.search_query.as_str().is_empty() {
            let mut i: usize = 0;
            while i < n
                invariant
                    i <= n,
                    n == self.all_entries@.len(),
                    all == spec_rows_view(self.all_entries@),
                    spec_rows_view(shown@) == all.take(i as int),
                decreases n - i,
            {
                let r = self.all_entries[i].duplicate();
                let ghost before = shown@;
                shown.push(r);
                assert(spec_rows_view(shown@) =~= spec_rows_view(before).push(r@));
                assert(spec_rows_view(shown@) =~= all.take(i + 1));
                i = i + 1;
            }
            assert(all.take(n as int) =~= all);
        } else {
            let q = to_lowercase(self.search_query.as_str());
            let ghost pred = |r: EntryRowView| spec_row_matches(r, spec_to_lowercase(query));
            let mut i: usize = 0;
            while i < n
                invariant
                    i <= n,
                    n == self.all_entries@.len(),
                    all == spec_rows_view(self.all_entries@),
                    q@ == spec_to_lowercase(query),
                    pred == (|r: EntryRowView| spec_row_matches(r, spec_to_lowercase(query))),
                    spec_rows_view(shown@) == all.take(i as int).filter(pred),
                decreases n - i,
            {
                let r = &self.all_entries[i];
                let m = row_matches(r, q.as_str());
                proof {
                    reveal_with_fuel(Seq::<_>::filter, 1);
                    assert(all.take(i + 1).drop_last() =~= all.take(i as int));
                    assert(all.take(i + 1).last() == r@);
                }
                if m {
                    shown.push(r.duplicate());
                }
                assert(spec_rows_view(shown@) =~= all.take(i + 1).filter(pred));
                i = i + 1;
            }
            assert(all.take(n as int) =~= all);
        }
        self.entries = shown;
        self.entry_list_selected = 0;
        self.entry_list_page = 0;
    }

    fn adjust_page(&mut self)
        ensures
            final(self)@ == spec_adjust_page(old(self)@),
    {
        let per = if self.per_page >= 1 {
            self.per_page
        } else {
            1
        };
        self.entry_list_page = self.entry_list_selected / per;
    }

    fn get_selected_entry_idx(&self) -> (r: Option<usize>)
        ensures
            r == spec_selected_idx(self@),
    {
        if self.entries.len() == 0 {
            None
        } else if self.entry_list_selected < self.entries.len() {
            Some(self.entry_list_selected)
        } else {
            Some(self.entries.len() - 1)
        }
    }

    fn handle_tab_next(&mut self)
        ensures
            final(self)@ == spec_tab_next(old(self)@),
    {
        match self.screen {
            Screen::EntryForm => {
                self.form_field_idx = (self.form_field_idx % 6 + 1) % 6;
            },
            Screen::NewVault => {
                self.new_vault_field_idx = (self.new_vault_field_idx % 3 + 1) % 3;
            },
            _ => {},
        }
    }

    fn handle_tab_prev(&mut self)
        ensures
            final(self)@ == spec_tab_prev(old(self)@),
    {
        match self.screen {
            Screen::EntryForm => {
                self.form_field_idx = (self.form_field_idx % 6 + 5) % 6;
            },
            Screen::NewVault => {
                self.new_vault_field_idx = (self.new_vault_field_idx % 3 + 2) % 3;
            },
            _ => {},
        }
    }

    fn handle_help(&mut self)
        ensures
            final(self)@ == spec_help(old(self)@),
    {
        if self.screen == Screen::Help {
            self.screen = match self.previous_screen {
                Some(p) => p,
                None => Screen::VaultList,
            };
        } else {
            self.previous_screen = Some(self.screen);
            self.screen = Screen::Help;
        }
    }

    fn handle_lock(&mut self)
        ensures
            final(self)@ == spec_lock(old(self)@),
    {
        if self.screen == Screen::EntryList || self.screen == Screen::EntryDetail {
            self.lock_vault();
        }
    }

    fn handle_up(&mut self)
        ensures
            final(self)@ == spec_up(old(self)@),
    {
        match self.screen {
            Screen::VaultList => {
                if self.vault_list_selected > 0 {
                    self.vault_list_selected = self.vault_list_selected - 1;
                }
            },
            Screen::EntryList => {
                if self.entry_list_selected > 0 {
                    self.entry_list_selected = self.entry_list_selected - 1;
                    self.adjust_page();
                }
            },
            Screen::EntryForm | Screen::NewVault => {
                self.handle_tab_prev();
            },
            Screen::Generate => {
                self.gen_selected = if self.gen_selected > 0 {
                    self.gen_selected - 1
                } else {
                    0
                };
            },
            Screen::Help => {
                if self.help_scroll > 0 {
                    self.help_scroll = self.help_scroll - 1;
                }
            },
            _ => {},
        }
    }

    fn handle_down(&mut self)
        ensures
            final(self)@ == spec_down(old(self)@),
    {
        match self.screen {
            Screen::VaultList => {
                if self.vaults.len() > 0 && self.vault_list_selected < self.vaults.len() - 1 {
                    self.vault_list_selected = self.vault_list_selected + 1;
                }
            },
            Screen::EntryList => {
                if self.entries.len() > 0 && self.entry_list_selected < self.entries.len() - 1 {
                    self.entry_list_selected = self.entry_list_selected + 1;
                    self.adjust_page();
                }
            },
            Screen::EntryForm | Screen::NewVault => {
                self.handle_tab_next();
            },
            Screen::Generate => {
                self.gen_selected = if self.gen_selected < GEN_OPTION_COUNT - 1 {
                    self.gen_selected + 1
                } else {
                    GEN_OPTION_COUNT - 1
                };
            },
            Screen::Help => {
                self.help_scroll = if self.help_scroll < u16::MAX {
                    self.help_scroll + 1
                } else {
                    u16::MAX
                };
            },
            _ => {},
        }
    }

    fn toggle_gen_option(&mut self, option: GenOption)
        ensures
            final(self)@ == (AppView { gen_policy: spec_toggle(old(self)@.gen_policy, option), ..old(self)@ }),
    {
        match option {
            GenOption::Lowercase => {
                self.gen_policy.include_lowercase = !self.gen_policy.include_lowercase;
            },
            GenOption::Uppercase => {
                self.gen_policy.include_uppercase = !self.gen_policy.include_uppercase;
            },
            GenOption::Digits => {
                self.gen_policy.include_digits = !self.gen_policy.include_digits;
            },
            GenOption::Symbols => {
                self.gen_policy.include_symbols = !self.gen_policy.include_symbols;
            },
            GenOption::ExcludeAmbiguous => {
                self.gen_policy.exclude_ambiguous = !self.gen_policy.exclude_ambiguous;
            },
            GenOption::Length => {},
        }
    }

    fn handle_left(&mut self)
        requires
            old(self).screen == Screen::Generate ==> old(self).gen_selected < GEN_OPTION_COUNT,
        ensures
            final(self)@ == spec_left(old(self)@),
    {
        if self.screen == Screen::Generate {
            let option = GenOption::at(self.gen_selected);
            match option {
                GenOption::Length => {
                    let l = self.gen_policy.length;
                    self.gen_policy.length = if l >= 5 {
                        l - 1
                    } else {
                        4
                    };
                },
                _ => self.toggle_gen_option(option),
            }
        }
    }

    fn handle_right(&mut self)
        requires
            old(self).screen == Screen::Generate ==> old(self).gen_selected < GEN_OPTION_COUNT,
        ensures
            final(self)@ == spec_right(old(self)@),
    {
        if self.screen == Screen::Generate {
            let option = GenOption::at(self.gen_selected);
            match option {
                GenOption::Length => {
                    let l = self.gen_policy.length;
                    self.gen_policy.length = if l < 128 {
                        l + 1
                    } else {
                        128
                    };
                },
                _ => self.toggle_gen_option(option),
            }
        }
    }

    fn handle_page_up(&mut self)
        ensures
            final(self)@ == spec_page_up(old(self)@),
    {
        if self.screen == Screen::EntryList {
            self.entry_list_selected = if self.entry_list_selected >= self.per_page {
                self.entry_list_selected - self.per_page
            } else {
                0
            };
            self.adjust_page();
        } else if self.screen == Screen::Help {
            self.help_scroll = if self.help_scroll >= 15 {
                self.help_scroll - 15
            } else {
                0
            };
        }
    }

    fn handle_page_down(&mut self)
        ensures
            final(self)@ == spec_page_down(old(self)@),
    {
        if self.screen == Screen::EntryList {
            let last = if self.entries.len() > 0 {
                self.entries.len() - 1
            } else {
                0
            };
            self.entry_list_selected = if self.per_page <= last && self.entry_list_selected
                <= last - self.per_page {
                self.entry_list_selected + self.per_page
            } else {
                last
            };
            self.adjust_page();
        } else if self.screen == Screen::Help {
            self.help_scroll = if self.help_scroll <= u16::MAX - 15 {
                self.help_scroll + 15
            } else {
                u16::MAX
            };
        }
    }

    fn handle_home(&mut self)
        ensures
            final(self)@ == spec_home(old(self)@),
    {
        if self.screen == Screen::EntryList {
            self.entry_list_selected = 0;
            self.entry_list_page = 0;
        } else if self.screen == Screen::Help {
            self.help_scroll = 0;
        }
    }

    fn handle_end(&mut self)
        ensures
            final(self)@ == spec_end(old(self)@),
    {
        if self.screen == Screen::EntryList {
            self.entry_list_selected = if self.entries.len() > 0 {
                self.entries.len() - 1
            } else {
                0
            };
            self.adjust_page();
        } else if self.screen == Screen::Help {
            self.help_scroll = u16::MAX;
        }
    }

    fn handle_search(&mut self)
        ensures
            final(self)@ == spec_search(old(self)@),
    {
        if self.screen == Screen::EntryList {
            self.in_search = true;
        }
    }

    fn handle_add(&mut self)
        ensures
            final(self)@ == spec_add(old(self)@),
    {
        if self.screen == Screen::EntryList {
            self.screen = Screen::EntryForm;
            self.previous_screen = Some(Screen::EntryList);
            self.form_mode = FormMode::Add;
            self.form_fields = FormFields::default();
            self.form_field_idx = 0;
        }
    }

    fn handle_generate(&mut self)
        ensures
            final(self)@ == spec_generate_screen(old(self)@),
    {
        if self.screen == Screen::Generate {
            return;
        }
        self.previous_screen = Some(self.screen);
        self.screen = Screen::Generate;
        self.gen_policy = GenPolicy::with_length(self.default_generate_length);
        self.gen_result = None;
    }

    fn handle_new_vault(&mut self)
        ensures
            final(self)@ == spec_new_vault(old(self)@),
    {
        if self.screen == Screen::VaultList {
            self.previous_screen = Some(Screen::VaultList);
            self.screen = Screen::NewVault;
            self.reset_new_vault_fields();
        }
    }

    fn handle_reveal(&mut self)
        requires
            old(self).screen == Screen::Generate ==> old(self).gen_selected < GEN_OPTION_COUNT,
        ensures
            final(self)@ == spec_reveal(old(self)@),
    {
        match self.screen {
            Screen::EntryDetail => {
                self.show_password = !self.show_password;
            },
            Screen::Generate => {
                let option = GenOption::at(self.gen_selected);
                self.toggle_gen_option(option);
            },
            _ => {},
        }
    }

    fn handle_back(&mut self)
        ensures
            final(self)@ == spec_back(old(self)@),
    {
        match self.screen {
            Screen::Unlock => {
                self.screen = Screen::VaultList;
                wipe(&mut self.unlock_password);
            },
            Screen::EntryList => {
                if self.in_search {
                    wipe(&mut self.search_query);
                    self.in_search = false;
                    self.recompute_filtered_entries();
                } else {
                    self.screen = Screen::VaultList;
                    self.vault = None;
                    self.master_password = None;
                    self.locked = false;
                    self.in_search = false;
                    wipe(&mut self.search_query);
                }
            },
            Screen::EntryDetail => {
                self.screen = Screen::EntryList;
                self.detail_entry_idx = None;
                self.show_password = false;
            },
            Screen::EntryForm => {
                self.back_from_form();
            },
            Screen::NewVault => {
                self.reset_new_vault_fields();
                self.screen = Screen::VaultList;
            },
            Screen::Generate => {
                self.screen = match self.previous_screen {
                    Some(p) => p,
                    None => Screen::VaultList,
                };
                self.gen_result = None;
            },
            Screen::Locked => {
                self.screen = Screen::Unlock;
                wipe(&mut self.unlock_password);
            },
            Screen::Confirm => {
                self.screen = match self.previous_screen {
                    Some(p) => p,
                    None => Screen::EntryList,
                };
                self.confirm_on_yes = None;
            },
            Screen::Help => {
                self.screen = match self.previous_screen {
                    Some(p) => p,
                    None => Screen::VaultList,
                };
            },
            Screen::VaultList => {},
        }
    }

    /// Replaces the vault list (as read from the vaults directory), in name
    /// order, and selects its first vault.
    pub fn set_vaults(&mut self, list: Vec<VaultInfo>)
        ensures
            spec_sorted_by_name(final(self)@.vaults),
            final(self)@.vaults.to_multiset() == spec_vault_infos(list@).to_multiset(),
            exists|p: Seq<int>|
                spec_stable_arrangement(spec_vault_infos(list@), final(self)@.vaults, p),
            final(self)@ == (AppView {
                vaults: final(self)@.vaults,
                vault_list_selected: 0,
                ..old(self)@
            }),
    {
        self.vaults = sort_by_name(list);
        self.vault_list_selected = 0;
    }

    /// Applies the result of the finished background task and clears the
    /// spinner; returns the outside work the result asks for.
    pub fn finish_task(&mut self, result: TaskResult, now: u128) -> (r: Option<Effect>)
        ensures
            (final(self)@, spec_effect_view(r)) == spec_finish_task(old(self)@, result@, now),
    {
        let kind = match self.pending {
            Some(k) => k,
            None => return None,
        };
        self.pending = None;
        self.apply_task_result(kind, result, now)
    }

    fn apply_task_result(&mut self, kind: TaskKind, result: TaskResult, now: u128) -> (r: Option<Effect>)
        ensures
            (final(self)@, spec_effect_view(r)) == spec_apply_task_result(old(self)@, kind, result@, now),
    {
        match kind {
            TaskKind::Unlock => match result {
                TaskResult::Unlock { path, password, result } => match result {
                    Ok(vault) => {
                        let effect = Effect::RecordOpened { path: path.clone() };
                        self.vault_path = Some(path);
                        self.vault = Some(vault);
                        self.master_password = Some(password);
                        self.locked = false;
                        self.last_activity = now;
                        self.load_entries();
                        self.screen = Screen::EntryList;
                        self.set_status(to_owned_string("Vault unlocked"), now);
                        Some(effect)
                    },
                    Err(_) => {
                        self.unlock_error = Some(to_owned_string("Invalid master password"));
                        None
                    },
                },
                _ => None,
            },
            TaskKind::CreateVault => match result {
                TaskResult::CreateVault { name, result } => match result {
                    Ok(()) => {
                        self.reset_new_vault_fields();
                        self.screen = Screen::VaultList;
                        let mut m = to_owned_string("Vault '");
                        m.append(name.as_str());
                        m.append("' created");
                        self.set_status(m, now);
                        Some(Effect::ReloadVaults)
                    },
                    Err(e) => {
                        let mut m = to_owned_string("Failed to create vault: ");
                        m.append(e.as_str());
                        self.set_error(m, now);
                        None
                    },
                },
                _ => None,
            },
            TaskKind::SaveEntryAdd | TaskKind::SaveEntryEdit | TaskKind::SaveEntryDelete => {
                match result {
                    TaskResult::SaveVault { result } => match result {
                        Ok(()) => {
                            self.load_entries();
                            match kind {
                                TaskKind::SaveEntryAdd => {
                                    self.set_status(to_owned_string("Entry added"), now);
                                    self.back_from_form();
                                },
                                TaskKind::SaveEntryEdit => {
                                    self.set_status(to_owned_string("Entry saved"), now);
                                    self.back_from_form();
                                },
                                _ => self.set_status(to_owned_string("Entry deleted"), now),
                            }
                            None
                        },
                        Err(e) => {
                            let mut m = to_owned_string("Failed to save changes: ");
                            m.append(e.as_str());
                            self.set_error(m, now);
                            None
                        },
                    },
                    _ => None,
                }
            },
        }
    }

    /// Locks the session once it has been idle for the configured time (never
    /// while a background task runs).
    pub fn check_auto_lock(&mut self, now: u128)
        ensures
            final(self)@ == spec_auto_lock(old(self)@, now),
    {
        if self.pending.is_some() {
            return;
        }
        let elapsed = if now >= self.last_activity {
            now - self.last_activity
        } else {
            0
        };
        if session_expired(self.locked, self.auto_lock_seconds, elapsed) {
            self.lock_vault();
        }
    }

    /// Dismisses the notices that have been shown for their whole lifetime.
    pub fn expire_status(&mut self, now: u128)
        ensures
            final(self)@ == spec_expire_status(old(self)@, now),
    {
        if notice_expired(&self.status_message, now) {
            self.status_message = None;
        }
        if notice_expired(&self.status_error, now) {
            self.status_error = None;
        }
    }

    fn handle_action(&mut self, action: Action, now: u128) -> (r: (AppSignal, Option<Effect>))
        requires
            !spec_action_panics(old(self)@, action),
        ensures
            spec_action_step(old(self)@, action, now, final(self)@, r.0, spec_effect_view(r.1)),
    {
        match action {
            Action::Quit => {
                return (AppSignal::Quit, None);
            },
            Action::Help => self.handle_help(),
            Action::Lock => self.handle_lock(),
            Action::Up => self.handle_up(),
            Action::Down => self.handle_down(),
            Action::Left => self.handle_left(),
            Action::Right => self.handle_right(),
            Action::PageUp => self.handle_page_up(),
            Action::PageDown => self.handle_page_down(),
            Action::Home => self.handle_home(),
            Action::End => self.handle_end(),
            Action::Enter => {
                return (AppSignal::Continue, self.handle_enter(now));
            },
            Action::Back => self.handle_back(),
            Action::Search => self.handle_search(),
            Action::Add => self.handle_add(),
            Action::Generate => self.handle_generate(),
            Action::Delete => self.handle_delete(),
            Action::CopyPassword => {
                return (AppSignal::Continue, self.handle_copy(CopyField::Password, now));
            },
            Action::CopyUsername => {
                return (AppSignal::Continue, self.handle_copy(CopyField::Username, now));
            },
            Action::CopyUrl => {
                return (AppSignal::Continue, self.handle_copy(CopyField::Url, now));
            },
            Action::Edit => self.handle_edit(),
            Action::Reveal => self.handle_reveal(),
            Action::NewVault => self.handle_new_vault(),
            Action::Reroll => {
                if self.screen == Screen::Generate {
                    self.do_generate(now);
                }
            },
            Action::TabNext => self.handle_tab_next(),
            Action::TabPrev => self.handle_tab_prev(),
            Action::Save => {
                let effect = match self.screen {
                    Screen::EntryForm => self.save_entry(now),
                    Screen::NewVault => self.create_vault(now),
                    _ => None,
                };
                return (AppSignal::Continue, effect);
            },
        }
        (AppSignal::Continue, None)
    }

    fn handle_enter(&mut self, now: u128) -> (r: Option<Effect>)
        ensures
            spec_enter_step(old(self)@, now, final(self)@, spec_effect_view(r)),
    {
        match self.screen {
            Screen::VaultList => {
                if self.vault_list_selected < self.vaults.len() {
                    self.vault_path = Some(self.vaults[self.vault_list_selected].path.clone());
                    self.screen = Screen::Unlock;
                    wipe(&mut self.unlock_password);
                    self.unlock_error = None;
                }
                None
            },
            Screen::Unlock => self.try_unlock(),
            Screen::EntryList => {
                if let Some(idx) = self.get_selected_entry_idx() {
                    self.detail_entry_idx = Some(idx);
                    self.show_password = false;
                    self.screen = Screen::EntryDetail;
                }
                None
            },
            Screen::EntryForm | Screen::NewVault => {
                self.handle_tab_next();
                None
            },
            Screen::Generate => {
                self.do_generate(now);
                None
            },
            Screen::Locked => {
                self.screen = Screen::Unlock;
                wipe(&mut self.unlock_password);
                None
            },
            Screen::Confirm => self.confirm_yes(now),
            _ => None,
        }
    }

    /// Whether handling `key` at `now` would panic (see [`spec_key_panics`]);
    /// callers test this before [`App::handle_key`].
    pub fn key_panics(&self, key: KeyPress, now: u128) -> (b: bool)
        ensures
            b == spec_key_panics(self@, key, now),
    {
        if self.pending.is_some() {
            return false;
        }
        let action = match self.mapper.map_global(key) {
            Some(a) => Some(a),
            None => {
                let has_buffer = match self.screen {
                    Screen::Unlock | Screen::EntryForm | Screen::NewVault => true,
                    Screen::EntryList => self.in_search,
                    _ => false,
                };
                let plain = key.modifiers & MOD_CONTROL == 0 && key.modifiers & MOD_ALT == 0;
                let typed = match key.code {
                    Key::Char(_) | Key::Backspace => true,
                    _ => false,
                };
                if has_buffer && plain && typed {
                    None
                } else {
                    self.mapper.map(key)
                }
            },
        };
        match action {
            Some(a) => {
                let gen_row = (a == Action::Left || a == Action::Right || a == Action::Reveal)
                    && self.screen == Screen::Generate && self.gen_selected >= GEN_OPTION_COUNT;
                let save = a == Action::Save && self.screen == Screen::EntryForm
                    && self.save_panics();
                gen_row || save
            },
            None => false,
        }
    }

    fn save_panics(&self) -> (b: bool)
        ensures
            b == spec_save_panics(self@),
    {
        let name = trim(self.form_fields.name.as_str());
        let pw = self.form_fields.password.as_str();
        let confirm = self.form_fields.password_confirm.as_str();
        let form_ok = !name.as_str().is_empty() && !(!pw.is_empty() && !str_eq(pw, confirm)) && !(
        confirm.is_empty() && !pw.is_empty()) && !(pw.is_empty() && !confirm.is_empty()) && !(
        pw.is_empty() && self.form_mode == FormMode::Add);
        form_ok && self.vault.is_some() && self.form_mode == FormMode::Edit && match self.detail_entry_idx {
            Some(idx) => idx >= self.entries.len(),
            None => false,
        }
    }

    /// Handles a key press at monotonic time `now` (nanoseconds): returns
    /// whether to quit, and the outside work the key asks for. Printable keys
    /// go into the focused text field before any binding is consulted, so
    /// that typing never triggers actions; global keys (back, field
    /// navigation, save) work everywhere. While a background task runs,
    /// every key is ignored.
    pub fn handle_key(&mut self, key: KeyPress, now: u128) -> (r: (AppSignal, Option<Effect>))
        requires
            !spec_key_panics(old(self)@, key, now),
        ensures
            spec_key_step(old(self)@, key, now, final(self)@, r.0, spec_effect_view(r.1)),
    {
        self.last_activity = now;
        if self.pending.is_some() {
            return (AppSignal::Continue, None);
        }
        if let Some(action) = self.mapper.map_global(key) {
            return self.handle_action(action, now);
        }
        let has_buffer = match self.screen {
            Screen::Unlock | Screen::EntryForm | Screen::NewVault => true,
            Screen::EntryList => self.in_search,
            _ => false,
        };
        let plain = key.modifiers & MOD_CONTROL == 0 && key.modifiers & MOD_ALT == 0;
        if has_buffer && plain {
            match key.code {
                Key::Char(_) | Key::Backspace => {
                    self.edit_active_buffer(key.code);
                    if self.in_search {
                        self.recompute_filtered_entries();
                    }
                    return (AppSignal::Continue, None);
                },
                _ => {},
            }
        }
        match self.mapper.map(key) {
            Some(action) => self.handle_action(action, now),
            None => (AppSignal::Continue, None),
        }
    }

    fn try_unlock(&mut self) -> (r: Option<Effect>)
        ensures
            (final(self)@, spec_effect_view(r)) == spec_try_unlock(old(self)@),
    {
        match &self.vault_path {
            None => {
                self.unlock_error = Some(to_owned_string("No vault selected"));
                None
            },
            Some(p) => {
                let path = p.clone();
                let password = SecretString::new(take_string(&mut self.unlock_password));
                self.unlock_error = None;
                self.pending = Some(TaskKind::Unlock);
                Some(Effect::SpawnUnlock { path, password })
            },
        }
    }

    fn do_generate(&mut self, now: u128)
        ensures
            spec_generate_step(old(self)@, now, final(self)@),
    {
        let policy = PasswordPolicy {
            length: self.gen_policy.length,
            include_lowercase: self.gen_policy.include_lowercase,
            include_uppercase: self.gen_policy.include_uppercase,
            include_digits: self.gen_policy.include_digits,
            include_symbols: self.gen_policy.include_symbols,
            exclude_ambiguous: self.gen_policy.exclude_ambiguous,
        };
        let ghost s = self@;
        match generate_password(&policy) {
            Ok(pwd) => {
                let ghost r = Ok::<Seq<char>, Seq<char>>(pwd@);
                self.gen_result = Some(pwd);
                assert(spec_generation_outcome(spec_policy_of(s.gen_policy), r));
                assert(self@ == spec_after_generate(s, r, now));
            },
            Err(e) => {
                let m = e.message();
                let ghost r = Err::<Seq<char>, Seq<char>>(m@);
                self.set_error(m, now);
                assert(spec_generation_outcome(spec_policy_of(s.gen_policy), r));
                assert(self@ == spec_after_generate(s, r, now));
            },
        }
    }

    fn start_save_task(&mut self, kind: TaskKind, now: u128) -> (r: Option<Effect>)
        ensures
            (final(self)@, spec_effect_view(r)) == spec_start_save(old(self)@, kind, now),
    {
        let effect = match (&self.vault, &self.vault_path, &self.master_password) {
            (Some(v), Some(p), Some(pw)) => Some(
                Effect::SpawnSave {
                    kind,
                    path: p.clone(),
                    vault: v.duplicate(),
                    password: pw.duplicate(),
                },
            ),
            _ => None,
        };
        match effect {
            Some(e) => {
                self.pending = Some(kind);
                Some(e)
            },
            None => {
                self.set_error(to_owned_string("No open vault"), now);
                None
            },
        }
    }

    fn delete_target_entry(&mut self, now: u128) -> (r: Option<Effect>)
        ensures
            (final(self)@, spec_effect_view(r)) == spec_delete_target_entry(old(self)@, now),
    {
        let idx = match self.detail_entry_idx {
            Some(i) => Some(i),
            None => self.get_selected_entry_idx(),
        };
        let i = match idx {
            Some(i) => i,
            None => return None,
        };
        if i >= self.entries.len() {
            return None;
        }
        let id = self.entries[i].id;
        let ghost s = self@;
        let removed = match &mut self.vault {
            Some(v) => v.remove_by_id(id).is_ok(),
            None => false,
        };
        if removed {
            proof {
                let v = s.vault.unwrap();
                let j = choose|j: int| spec_first_with_id(v.entries, id, j);
                let k = spec_first_index(v.entries, id);
                assert(spec_first_with_id(v.entries, id, k));
                if spec_first_with_id(v.entries, id, j) {
                    lemma_first_unique(v.entries, id, j, k);
                }
            }
            self.load_entries();
            self.start_save_task(TaskKind::SaveEntryDelete, now)
        } else {
            None
        }
    }

    fn confirm_yes(&mut self, now: u128) -> (r: Option<Effect>)
        ensures
            (final(self)@, spec_effect_view(r)) == spec_confirm_yes(old(self)@, now),
    {
        let effect = match self.confirm_on_yes {
            Some(ConfirmAction::DeleteEntry) => self.delete_target_entry(now),
            Some(ConfirmAction::DeleteVault) => {
                if self.vault_list_selected < self.vaults.len() {
                    let path = self.vaults[self.vault_list_selected].path.clone();
                    self.set_status(to_owned_string("Vault deleted"), now);
                    Some(Effect::DeleteVaultFile { path })
                } else {
                    None
                }
            },
            None => None,
        };
        self.confirm_on_yes = None;
        self.screen = match self.previous_screen {
            Some(p) => p,
            None => Screen::EntryList,
        };
        self.detail_entry_idx = None;
        self.show_password = false;
        effect
    }

    fn save_entry(&mut self, now: u128) -> (r: Option<Effect>)
        requires
            !spec_save_panics(old(self)@),
        ensures
            spec_save_entry_step(old(self)@, now, final(self)@, spec_effect_view(r)),
    {
        let ghost s = self@;
        let name = self.form_fields.name.clone();
        let username = self.form_fields.username.clone();
        let notes = self.form_fields.notes.clone();
        let url = self.form_fields.url.clone();
        let password_raw = take_string(&mut self.form_fields.password);
        let confirm_raw = take_string(&mut self.form_fields.password_confirm);
        assert(self@ == spec_form_taken(s));
        let trimmed = trim(name.as_str());
        if trimmed.as_str().is_empty() {
            self.set_error(to_owned_string("Service name is required"), now);
            return None;
        }
        let pw_empty = password_raw.as_str().is_empty();
        if !pw_empty && !str_eq(password_raw.as_str(), confirm_raw.as_str()) {
            self.set_error(to_owned_string("Passwords do not match"), now);
            return None;
        }
        if confirm_raw.as_str().is_empty() && !pw_empty {
            self.set_error(to_owned_string("Re-type the password to confirm"), now);
            return None;
        }
        if pw_empty && !confirm_raw.as_str().is_empty() {
            self.set_error(to_owned_string("Passwords do not match"), now);
            return None;
        }
        if pw_empty && self.form_mode == FormMode::Add {
            self.set_error(to_owned_string("Password is required for new entries"), now);
            return None;
        }
        assert(spec_form_error(s) is None);
        let password = if pw_empty {
            None
        } else {
            Some(SecretString::new(password_raw))
        };
        let mode = self.form_mode;
        let ghost mut added: Option<EntryView> = None;
        let ghost mut edited: Option<EntryView> = None;
        let outcome: Result<(), String> = match &mut self.vault {
            None => {
                return None;
            },
            Some(vault) => {
                match mode {
                    FormMode::Add => {
                        let entry = Entry::new(
                            to_owned_string(trimmed.as_str()),
                            opt_text(username),
                            password.unwrap(),
                            opt_text(url),
                            opt_text(notes),
                        );
                        match entry {
                            Ok(e) => {
                                proof {
                                    added = Some(e@);
                                }
                                vault.add_entry(e);
                                Ok(())
                            },
                            Err(e) => Err(e.message()),
                        }
                    },
                    FormMode::Edit => match self.detail_entry_idx {
                        Some(idx) => {
                            let id = self.entries[idx].id;
                            match vault.find_by_id_mut(id) {
                                Some(entry) => {
                                    let _ = entry.rename(to_owned_string(trimmed.as_str()));
                                    entry.set_username(opt_text(username));
                                    if let Some(p) = password {
                                        entry.set_password(p);
                                    }
                                    entry.set_url(opt_text(url));
                                    entry.set_notes(opt_text(notes));
                                    proof {
                                        edited = Some(entry@);
                                    }
                                    Ok(())
                                },
                                None => Err(to_owned_string("Entry not found")),
                            }
                        },
                        None => Err(to_owned_string("No entry selected")),
                    },
                }
            },
        };
        match outcome {
            Ok(()) => {
                let kind = match mode {
                    FormMode::Add => TaskKind::SaveEntryAdd,
                    FormMode::Edit => TaskKind::SaveEntryEdit,
                };
                let r = self.start_save_task(kind, now);
                proof {
                    if let Some(w) = added {
                        assert(spec_new_entry_from(w, s.form_fields));
                    }
                    if let Some(w) = edited {
                        let v = s.vault.unwrap();
                        let id = s.entries[s.detail_entry_idx.unwrap() as int].id;
                        let k = spec_first_index(v.entries, id);
                        let j = choose|j: int|
                            spec_first_with_id(v.entries, id, j) && self@.vault == Some(
                                VaultView { entries: v.entries.update(j, w), ..v },
                            );
                        lemma_first_unique(v.entries, id, j, k);
                        assert(spec_edited_entry(v.entries[k], s.form_fields, w));
                    }
                }
                r
            },
            Err(m) => {
                self.set_error(m, now);
                None
            },
        }
    }

    fn create_vault(&mut self, now: u128) -> (r: Option<Effect>)
        ensures
            spec_create_vault_step(old(self)@, now, final(self)@, spec_effect_view(r)),
    {
        let name = trim(self.new_vault_fields.name.as_str());
        if name.as_str().is_empty() {
            self.set_error(to_owned_string("Vault name is required"), now);
            self.reset_new_vault_fields();
            return None;
        }
        if self.new_vault_fields.password.as_str().is_empty() {
            self.set_error(to_owned_string("Password is required"), now);
            self.reset_new_vault_fields();
            return None;
        }
        if !str_eq(self.new_vault_fields.password.as_str(), self.new_vault_fields.confirm.as_str()) {
            self.set_error(to_owned_string("Passwords do not match"), now);
            self.reset_new_vault_fields();
            return None;
        }
        match vaults_dir() {
            Ok(dir) => {
                let mut file = name.clone();
                file.append(".cista");
                let path = join(dir.as_str(), file.as_str());
                let key = take_string(&mut self.new_vault_fields.password);
                self.pending = Some(TaskKind::CreateVault);
                let ghost d = Ok::<Seq<char>, Seq<char>>(dir@);
                assert(spec_dir_outcome(d));
                Some(Effect::SpawnCreateVault { name, path, password: SecretString::new(key) })
            },
            Err(e) => {
                let m = e.message();
                let ghost d = Err::<Seq<char>, Seq<char>>(m@);
                self.set_error(m, now);
                self.reset_new_vault_fields();
                assert(spec_dir_outcome(d));
                None
            },
        }
    }

    /// Rebuilds all rows from the open vault, then the shown rows.
    fn load_entries(&mut self)
        ensures
            final(self)@ == spec_load_entries(old(self)@),
    {
        let mut rows: Vec<EntryRow> = Vec::new();
        match &self.vault {
            Some(v) => {
                let entries = v.entries();
                let ghost all = v@.entries;
                let n = entries.len();
                let mut i: usize = 0;
                while i < n
                    invariant
                        i <= n,
                        n == entries@.len(),
                        all == crate::model::spec_entry_views(entries@),
                        spec_rows_view(rows@) == all.take(i as int).map_values(
                            |e: EntryView| spec_entry_row(e),
                        ),
                    decreases n - i,
                {
                    let e = &entries[i];
                    let row = EntryRow {
                        id: e.id(),
                        name: to_owned_string(e.name()),
                        username: opt_string(e.username()),
                        url: opt_string(e.url()),
                    };
                    let ghost before = rows@;
                    rows.push(row);
                    assert(spec_rows_view(rows@) =~= spec_rows_view(before).push(row@));
                    assert(all.take(i + 1) =~= all.take(i as int).push(all[i as int]));
                    assert(spec_rows_view(rows@) =~= all.take(i + 1).map_values(
                        |e: EntryView| spec_entry_row(e),
                    ));
                    i = i + 1;
                }
                assert(all.take(n as int) =~= all);
            },
            None => {},
        }
        self.all_entries = rows;
        proof {
            assert(spec_rows_view(self.all_entries@) =~= spec_vault_rows(old(self)@.vault));
        }
        self.recompute_filtered_entries();
    }

    /// Types a key into the focused text field.
    fn edit_active_buffer(&mut self, code: Key)
        requires
            code is Char || code is Backspace,
        ensures
            final(self)@ == spec_buffer_edit(old(self)@, code),
    {
        match self.screen {
            Screen::Unlock => edit_text(&mut self.unlock_password, code),
            Screen::EntryList => edit_text(&mut self.search_query, code),
            Screen::EntryForm => {
                if self.form_field_idx == 0 {
                    edit_text(&mut self.form_fields.name, code);
                } else if self.form_field_idx == 1 {
                    edit_text(&mut self.form_fields.username, code);
                } else if self.form_field_idx == 2 {
                    edit_text(&mut self.form_fields.password, code);
                } else if self.form_field_idx == 3 {
                    edit_text(&mut self.form_fields.password_confirm, code);
                } else if self.form_field_idx == 4 {
                    edit_text(&mut self.form_fields.url, code);
                } else {
                    edit_text(&mut self.form_fields.notes, code);
                }
            },
            Screen::NewVault => {
                if self.new_vault_field_idx == 0 {
                    edit_text(&mut self.new_vault_fields.name, code);
                } else if self.new_vault_field_idx == 1 {
                    edit_text(&mut self.new_vault_fields.password, code);
                } else {
                    edit_text(&mut self.new_vault_fields.confirm, code);
                }
            },
            _ => {},
        }
    }

    fn handle_delete(&mut self)
        ensures
            final(self)@ == spec_delete(old(self)@),
    {
        match self.screen {
            Screen::VaultList => {
                if self.vault_list_selected < self.vaults.len() {
                    let mut m = to_owned_string("Delete vault '");
                    m.append(self.vaults[self.vault_list_selected].name.as_str());
                    m.append("'?");
                    self.confirm_message = m;
                    self.confirm_on_yes = Some(ConfirmAction::DeleteVault);
                    self.previous_screen = Some(Screen::VaultList);
                    self.screen = Screen::Confirm;
                }
            },
            Screen::EntryList | Screen::EntryDetail => {
                let idx = match self.detail_entry_idx {
                    Some(i) => Some(i),
                    None => self.get_selected_entry_idx(),
                };
                if let Some(i) = idx {
                    if i < self.entries.len() {
                        let mut m = to_owned_string("Delete entry '");
                        m.append(self.entries[i].name.as_str());
                        m.append("'?");
                        self.confirm_message = m;
                        self.confirm_on_yes = Some(ConfirmAction::DeleteEntry);
                        self.previous_screen = Some(self.screen);
                        self.screen = Screen::Confirm;
                    }
                }
            },
            _ => {},
        }
    }

    /// The entry on the detail screen.
    fn detail_entry(&self) -> (r: Option<&Entry>)
        ensures
            spec_opt_view(r) == spec_detail_entry(self@),
    {
        if self.screen != Screen::EntryDetail {
            return None;
        }
        match self.detail_entry_idx {
            Some(i) => {
                if i < self.entries.len() {
                    match &self.vault {
                        Some(v) => v.find_by_id(self.entries[i].id),
                        None => None,
                    }
                } else {
                    None
                }
            },
            None => None,
        }
    }

    fn handle_edit(&mut self)
        ensures
            final(self)@ == spec_open_edit(old(self)@),
    {
        let fields = match self.detail_entry() {
            Some(e) => Some(
                FormFields {
                    name: to_owned_string(e.name()),
                    username: str_or_empty(e.username()),
                    password: String::new(),
                    password_confirm: String::new(),
                    url: str_or_empty(e.url()),
                    notes: match e.notes() {
                        Some(n) => to_owned_string(n.as_str()),
                        None => String::new(),
                    },
                },
            ),
            None => None,
        };
        if let Some(f) = fields {
            self.form_mode = FormMode::Edit;
            self.form_fields = f;
            self.form_field_idx = 0;
            self.previous_screen = Some(Screen::EntryDetail);
            self.screen = Screen::EntryForm;
        }
    }

    fn handle_copy(&mut self, field: CopyField, now: u128) -> (r: Option<Effect>)
        ensures
            (final(self)@, spec_effect_view(r)) == spec_copy(old(self)@, field, now),
    {
        let ok_message = copied_message(field);
        if field == CopyField::Password && self.screen == Screen::Generate {
            match &self.gen_result {
                Some(p) => {
                    return Some(Effect::CopyToClipboard { text: p.clone(), ok_message });
                },
                None => {
                    self.set_error(to_owned_string("Generate a password first"), now);
                    return None;
                },
            }
        }
        let text = match self.detail_entry() {
            Some(e) => match field {
                CopyField::Password => Some(Some(to_owned_string(e.password().as_str()))),
                CopyField::Username => Some(opt_string(e.username())),
                CopyField::Url => Some(opt_string(e.url())),
            },
            None => None,
        };
        match text {
            Some(Some(t)) => Some(Effect::CopyToClipboard { text: t, ok_message }),
            Some(None) => {
                self.set_status(ok_message, now);
                None
            },
            None => None,
        }
    }

    /// Reports how a clipboard copy went: the success message, or an error.
    pub fn on_copy_result(&mut self, ok: bool, ok_message: String, now: u128)
        ensures
            final(self)@ == if ok {
                spec_set_status(old(self)@, ok_message@, now)
            } else {
                spec_set_error(old(self)@, "Clipboard unavailable"@, now)
            },
    {
        if ok {
            self.set_status(ok_message, now);
        } else {
            self.set_error(to_owned_string("Clipboard unavailable"), now);
        }
    }

    fn set_status(&mut self, text: String, now: u128)
        ensures
            final(self)@ == spec_set_status(old(self)@, text@, now),
    {
        self.status_message = Some(StatusNotice { text, at: now });
        self.status_error = None;
    }

    fn set_error(&mut self, text: String, now: u128)
        ensures
            final(self)@ == spec_set_error(old(self)@, text@, now),
    {
        self.status_error = Some(StatusNotice { text, at: now });
        self.status_message = None;
    }

    fn reset_form_fields(&mut self)
        ensures
            final(self)@ == spec_reset_form(old(self)@),
    {
        wipe(&mut self.form_fields.password);
        wipe(&mut self.form_fields.password_confirm);
        self.form_fields = FormFields::default();
        self.form_field_idx = 0;
    }

    fn reset_new_vault_fields(&mut self)
        ensures
            final(self)@ == spec_reset_new_vault(old(self)@),
    {
        wipe(&mut self.new_vault_fields.name);
        wipe(&mut self.new_vault_fields.password);
        wipe(&mut self.new_vault_fields.confirm);
        self.new_vault_fields = NewVaultFields::default();
        self.new_vault_field_idx = 0;
    }

    fn lock_vault(&mut self)
        ensures
            final(self)@ == spec_lock_vault(old(self)@),
    {
        self.vault = None;
        self.master_password = None;
        self.locked = true;
        self.screen = Screen::Locked;
        self.in_search = false;
        wipe(&mut self.search_query);
        self.reset_form_fields();
    }

    fn back_from_form(&mut self)
        ensures
            final(self)@ == spec_back_from_form(old(self)@),
    {
        self.screen = match self.previous_screen {
            Some(p) => p,
            None => Screen::EntryList,
        };
        self.reset_form_fields();
    }
}

} // verus!
