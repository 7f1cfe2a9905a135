//! The values the terminal UI keeps between key presses: screens, form
//! contents, status notices, background tasks and their outcomes.
use crate::model::{spec_opt_view, SecretString, Vault, VaultView};
use vstd::prelude::*;

verus! {

/// How long a status notice stays visible, in nanoseconds (three seconds).
pub const STATUS_LIFETIME_NANOS: u128 = 3_000_000_000;

/// A transient status line, with the (monotonic) time it was set.
#[derive(Debug, Clone)]
pub struct StatusNotice {
    pub text: String,
    pub at: u128,
}

/// The abstract content of a [`StatusNotice`].
pub struct StatusView {
    pub text: Seq<char>,
    pub at: u128,
}

impl View for StatusNotice {
    type V = StatusView;

    open spec fn view(&self) -> StatusView {
        StatusView { text: self.text@, at: self.at }
    }
}

/// The view of an optional notice.
pub open spec fn spec_notice_view(n: Option<StatusNotice>) -> Option<StatusView> {
    match n {
        Some(s) => Some(s@),
        None => None,
    }
}

/// What handling a key asks of the event loop. Never a `bool`: consuming a
/// key must not be confused with asking to quit.
#[derive(Debug, Clone, Copy, PartialEq, Eq, Structural)]
pub enum AppSignal {
    Continue,
    Quit,
}

/// The screens of the terminal UI.
#[derive(Debug, Clone, Copy, PartialEq, Eq, Structural)]
pub enum Screen {
    VaultList,
    Unlock,
    EntryList,
    EntryDetail,
    EntryForm,
    NewVault,
    Generate,
    Locked,
    Confirm,
    Help,
}

/// A vault file found in the vaults directory.
#[derive(Debug, Clone)]
pub struct VaultInfo {
    pub name: String,
    pub path: String,
    /// The date it was last opened, if known.
    pub last_opened: Option<String>,
    pub entry_count: Option<usize>,
    /// The file size in bytes.
    pub size: u64,
}

/// The abstract content of a [`VaultInfo`].
pub struct VaultInfoView {
    pub name: Seq<char>,
    pub path: Seq<char>,
    pub last_opened: Option<Seq<char>>,
    pub entry_count: Option<usize>,
    pub size: u64,
}

impl View for VaultInfo {
    type V = VaultInfoView;

    open spec fn view(&self) -> VaultInfoView {
        VaultInfoView {
            name: self.name@,
            path: self.path@,
            last_opened: spec_opt_view(self.last_opened),
            entry_count: self.entry_count,
            size: self.size,
        }
    }
}

/// One row of the entry list: what the list shows of an entry.
#[derive(Debug, Clone)]
pub struct EntryRow {
    pub id: u128,
    pub name: String,
    pub username: Option<String>,
    pub url: Option<String>,
}

/// The abstract content of an [`EntryRow`].
pub struct EntryRowView {
    pub id: u128,
    pub name: Seq<char>,
    pub username: Option<Seq<char>>,
    pub url: Option<Seq<char>>,
}

impl View for EntryRow {
    type V = EntryRowView;

    open spec fn view(&self) -> EntryRowView {
        EntryRowView {
            id: self.id,
            name: self.name@,
            username: spec_opt_view(self.username),
            url: spec_opt_view(self.url),
        }
    }
}

/// A copy of an optional string.
fn copy_opt(o: &Option<String>) -> (r: Option<String>)
    ensures
        spec_opt_view(r) == spec_opt_view(*o),
{
    match o {
        Some(s) => Some(s.clone()),
        None => None,
    }
}

impl EntryRow {
    /// A copy of this row.
    pub fn duplicate(&self) -> (r: EntryRow)
        ensures
            r@ == self@,
    {
        EntryRow {
            id: self.id,
            name: self.name.clone(),
            username: copy_opt(&self.username),
            url: copy_opt(&self.url),
        }
    }
}

/// Whether the entry form adds a new entry or edits the shown one.
#[derive(Debug, Clone, Copy, PartialEq, Eq, Structural)]
pub enum FormMode {
    Add,
    Edit,
}

/// The text fields of the add/edit entry form.
#[derive(Debug, Clone)]
pub struct FormFields {
    pub name: String,
    pub username: String,
    pub password: String,
    pub password_confirm: String,
    pub url: String,
    pub notes: String,
}

/// The abstract content of [`FormFields`].
pub struct FormFieldsView {
    pub name: Seq<char>,
    pub username: Seq<char>,
    pub password: Seq<char>,
    pub password_confirm: Seq<char>,
    pub url: Seq<char>,
    pub notes: Seq<char>,
}

impl View for FormFields {
    type V = FormFieldsView;

    open spec fn view(&self) -> FormFieldsView {
        FormFieldsView {
            name: self.name@,
            username: self.username@,
            password: self.password@,
            password_confirm: self.password_confirm@,
            url: self.url@,
            notes: self.notes@,
        }
    }
}

/// A form with every field empty.
pub open spec fn spec_empty_form() -> FormFieldsView {
    FormFieldsView {
        name: Seq::empty(),
        username: Seq::empty(),
        password: Seq::empty(),
        password_confirm: Seq::empty(),
        url: Seq::empty(),
        notes: Seq::empty(),
    }
}

impl Default for FormFields {
    fn default() -> (f: Self)
        ensures
            f@ == spec_empty_form(),
    {
        FormFields {
            name: String::new(),
            username: String::new(),
            password: String::new(),
            password_confirm: String::new(),
            url: String::new(),
            notes: String::new(),
        }
    }
}

/// The text fields of the new-vault form.
#[derive(Debug, Clone)]
pub struct NewVaultFields {
    pub name: String,
    pub password: String,
    pub confirm: String,
}

/// The abstract content of [`NewVaultFields`].
pub struct NewVaultFieldsView {
    pub name: Seq<char>,
    pub password: Seq<char>,
    pub confirm: Seq<char>,
}

impl View for NewVaultFields {
    type V = NewVaultFieldsView;

    open spec fn view(&self) -> NewVaultFieldsView {
        NewVaultFieldsView { name: self.name@, password: self.password@, confirm: self.confirm@ }
    }
}

/// A new-vault form with every field empty.
pub open spec fn spec_empty_new_vault() -> NewVaultFieldsView {
    NewVaultFieldsView { name: Seq::empty(), password: Seq::empty(), confirm: Seq::empty() }
}

impl Default for NewVaultFields {
    fn default() -> (f: Self)
        ensures
            f@ == spec_empty_new_vault(),
    {
        NewVaultFields { name: String::new(), password: String::new(), confirm: String::new() }
    }
}

/// The settings of the generate screen.
#[derive(Debug, Clone, Copy)]
pub struct GenPolicy {
    pub length: usize,
    pub include_lowercase: bool,
    pub include_uppercase: bool,
    pub include_digits: bool,
    pub include_symbols: bool,
    pub exclude_ambiguous: bool,
}

/// Every character class on, ambiguous characters allowed.
pub open spec fn spec_gen_policy(length: usize) -> GenPolicy {
    GenPolicy {
        length,
        include_lowercase: true,
        include_uppercase: true,
        include_digits: true,
        include_symbols: true,
        exclude_ambiguous: false,
    }
}

impl GenPolicy {
    /// The policy the generate screen opens with, for the configured length.
    pub fn with_length(length: usize) -> (p: Self)
        ensures
            p == spec_gen_policy(length),
    {
        GenPolicy {
            length,
            include_lowercase: true,
            include_uppercase: true,
            include_digits: true,
            include_symbols: true,
            exclude_ambiguous: false,
        }
    }
}

/// A row of the generate screen.
#[derive(Debug, Clone, Copy, PartialEq, Eq, Structural)]
pub enum GenOption {
    Length,
    Lowercase,
    Uppercase,
    Digits,
    Symbols,
    ExcludeAmbiguous,
}

/// The number of rows of the generate screen.
pub const GEN_OPTION_COUNT: usize = 6;

/// The rows of the generate screen, top to bottom.
pub open spec fn spec_gen_option(i: int) -> GenOption {
    if i == 0 {
        GenOption::Length
    } else if i == 1 {
        GenOption::Lowercase
    } else if i == 2 {
        GenOption::Uppercase
    } else if i == 3 {
        GenOption::Digits
    } else if i == 4 {
        GenOption::Symbols
    } else {
        GenOption::ExcludeAmbiguous
    }
}

impl GenOption {
    /// The row at position `i`, top to bottom.
    pub fn at(i: usize) -> (o: GenOption)
        requires
            i < GEN_OPTION_COUNT,
        ensures
            o == spec_gen_option(i as int),
    {
        if i == 0 {
            GenOption::Length
        } else if i == 1 {
            GenOption::Lowercase
        } else if i == 2 {
            GenOption::Uppercase
        } else if i == 3 {
            GenOption::Digits
        } else if i == 4 {
            GenOption::Symbols
        } else {
            GenOption::ExcludeAmbiguous
        }
    }

    /// The text shown for the row.
    pub fn label(self) -> (s: &'static str)
        ensures
            s@ == spec_gen_label(self),
    {
        match self {
            GenOption::Length => "Length",
            GenOption::Lowercase => "Lowercase (a-z)",
            GenOption::Uppercase => "Uppercase (A-Z)",
            GenOption::Digits => "Digits (0-9)",
            GenOption::Symbols => "Symbols (!@#$...)",
            GenOption::ExcludeAmbiguous => "Exclude ambiguous (0/O, 1/l/I)",
        }
    }
}

/// The text shown for a row of the generate screen.
pub open spec fn spec_gen_label(o: GenOption) -> Seq<char> {
    match o {
        GenOption::Length => "Length"@,
        GenOption::Lowercase => "Lowercase (a-z)"@,
        GenOption::Uppercase => "Uppercase (A-Z)"@,
        GenOption::Digits => "Digits (0-9)"@,
        GenOption::Symbols => "Symbols (!@#$...)"@,
        GenOption::ExcludeAmbiguous => "Exclude ambiguous (0/O, 1/l/I)"@,
    }
}

/// What a confirmation dialog does on "yes".
#[derive(Debug, Clone, Copy, PartialEq, Eq, Structural)]
pub enum ConfirmAction {
    DeleteEntry,
    DeleteVault,
}

/// A slow operation that runs in the background while a spinner shows.
#[derive(Debug, Clone, Copy, PartialEq, Eq, Structural)]
pub enum TaskKind {
    Unlock,
    CreateVault,
    SaveEntryAdd,
    SaveEntryEdit,
    SaveEntryDelete,
}

/// The spinner text of a task.
pub open spec fn spec_task_label(k: TaskKind) -> Seq<char> {
    match k {
        TaskKind::Unlock => "Unlocking vault…"@,
        TaskKind::CreateVault => "Creating vault…"@,
        _ => "Saving vault…"@,
    }
}

impl TaskKind {
    /// The spinner text of the task.
    pub fn label(self) -> (s: &'static str)
        ensures
            s@ == spec_task_label(self),
    {
        match self {
            TaskKind::Unlock => "Unlocking vault…",
            TaskKind::CreateVault => "Creating vault…",
            TaskKind::SaveEntryAdd | TaskKind::SaveEntryEdit | TaskKind::SaveEntryDelete => {
                "Saving vault…"
            },
        }
    }
}

/// What a background task reports when it is done, with the inputs it hands
/// back (the password, the path or name for the status line).
pub enum TaskResult {
    Unlock { path: String, password: SecretString, result: Result<Vault, String> },
    CreateVault { name: String, result: Result<(), String> },
    SaveVault { result: Result<(), String> },
    /// The worker ended without reporting.
    Failed,
}

/// The abstract content of a [`TaskResult`].
pub enum TaskResultView {
    Unlock { path: Seq<char>, password: Seq<char>, result: Result<VaultView, Seq<char>> },
    CreateVault { name: Seq<char>, result: Result<(), Seq<char>> },
    SaveVault { result: Result<(), Seq<char>> },
    Failed,
}

/// The view of a result whose error is a message.
pub open spec fn spec_unit_result_view(r: Result<(), String>) -> Result<(), Seq<char>> {
    match r {
        Ok(()) => Ok(()),
        Err(e) => Err(e@),
    }
}

impl View for TaskResult {
    type V = TaskResultView;

    open spec fn view(&self) -> TaskResultView {
        match self {
            TaskResult::Unlock { path, password, result } => TaskResultView::Unlock {
                path: path@,
                password: password@,
                result: match result {
                    Ok(v) => Ok(v@),
                    Err(e) => Err(e@),
                },
            },
            TaskResult::CreateVault { name, result } => TaskResultView::CreateVault {
                name: name@,
                result: spec_unit_result_view(*result),
            },
            TaskResult::SaveVault { result } => TaskResultView::SaveVault {
                result: spec_unit_result_view(*result),
            },
            TaskResult::Failed => TaskResultView::Failed,
        }
    }
}

/// Outside work that a transition asks the event loop to do.
pub enum Effect {
    /// Open the vault at `path` with `password` in the background.
    SpawnUnlock { path: String, password: SecretString },
    /// Write a new empty vault at `path`, sealed with `password`, in the background.
    SpawnCreateVault { name: String, path: String, password: SecretString },
    /// Seal and write `vault` at `path` in the background.
    SpawnSave { kind: TaskKind, path: String, vault: Vault, password: SecretString },
    /// Put `text` on the clipboard, then report whether that worked.
    CopyToClipboard { text: String, ok_message: String },
    /// Delete the vault file at `path`, then reload the vault list.
    DeleteVaultFile { path: String },
    /// Record that the vault at `path` was opened now.
    RecordOpened { path: String },
    /// Read the vault list again from the vaults directory.
    ReloadVaults,
}

/// The abstract content of an [`Effect`].
pub enum EffectView {
    SpawnUnlock { path: Seq<char>, password: Seq<char> },
    SpawnCreateVault { name: Seq<char>, path: Seq<char>, password: Seq<char> },
    SpawnSave { kind: TaskKind, path: Seq<char>, vault: VaultView, password: Seq<char> },
    CopyToClipboard { text: Seq<char>, ok_message: Seq<char> },
    DeleteVaultFile { path: Seq<char> },
    RecordOpened { path: Seq<char> },
    ReloadVaults,
}

impl View for Effect {
    type V = EffectView;

    open spec fn view(&self) -> EffectView {
        match self {
            Effect::SpawnUnlock { path, password } => EffectView::SpawnUnlock {
                path: path@,
                password: password@,
            },
            Effect::SpawnCreateVault { name, path, password } => EffectView::SpawnCreateVault {
                name: name@,
                path: path@,
                password: password@,
            },
            Effect::SpawnSave { kind, path, vault, password } => EffectView::SpawnSave {
                kind: *kind,
                path: path@,
                vault: vault@,
                password: password@,
            },
            Effect::CopyToClipboard { text, ok_message } => EffectView::CopyToClipboard {
                text: text@,
                ok_message: ok_message@,
            },
            Effect::DeleteVaultFile { path } => EffectView::DeleteVaultFile { path: path@ },
            Effect::RecordOpened { path } => EffectView::RecordOpened { path: path@ },
            Effect::ReloadVaults => EffectView::ReloadVaults,
        }
    }
}

/// The view of an optional effect.
pub open spec fn spec_effect_view(e: Option<Effect>) -> Option<EffectView> {
    match e {
        Some(x) => Some(x@),
        None => None,
    }
}

} // verus!
