//! Key bindings of the terminal UI, and the mapping from a key press to the
//! action it stands for.
use vstd::prelude::*;

verus! {

/// A key, as the terminal reports it.
#[derive(Clone, Copy, Debug, PartialEq, Eq, Structural)]
pub enum Key {
    Backspace,
    Enter,
    Left,
    Right,
    Up,
    Down,
    Home,
    End,
    PageUp,
    PageDown,
    Tab,
    BackTab,
    Delete,
    Insert,
    Esc,
    F(u8),
    Char(char),
    /// Any other key (media keys, lock keys, lone modifiers, ...).
    Other,
}

/// No modifier held.
pub const MOD_NONE: u8 = 0;
/// The Shift modifier bit.
pub const MOD_SHIFT: u8 = 1;
/// The Control modifier bit.
pub const MOD_CONTROL: u8 = 2;
/// The Alt modifier bit.
pub const MOD_ALT: u8 = 4;

/// A key press: the key and the set of modifier bits held with it.
#[derive(Clone, Copy, Debug, PartialEq, Eq, Structural)]
pub struct KeyPress {
    pub code: Key,
    pub modifiers: u8,
}

/// One binding: a key together with the exact modifiers it needs.
#[derive(Clone, Copy, Debug, PartialEq, Eq, Structural)]
pub struct KeyBinding {
    pub code: Key,
    pub modifiers: u8,
}

/// A binding matches a press with the same key and the same modifiers.
pub open spec fn spec_matches(b: KeyBinding, key: KeyPress) -> bool {
    b.code == key.code && b.modifiers == key.modifiers
}

impl KeyBinding {
    /// Whether `key` is this binding.
    pub fn matches(&self, key: KeyPress) -> (b: bool)
        ensures
            b == spec_matches(*self, key),
    {
        key.code == self.code && key.modifiers == self.modifiers
    }
}

/// Builds a binding.
fn kb(code: Key, modifiers: u8) -> (b: KeyBinding)
    ensures
        b == (KeyBinding { code, modifiers }),
{
    KeyBinding { code, modifiers }
}

/// What the user can ask the terminal UI to do.
#[derive(Clone, Copy, Debug, PartialEq, Eq, Structural)]
pub enum Action {
    Quit,
    Help,
    Lock,
    Up,
    Down,
    Left,
    Right,
    PageUp,
    PageDown,
    Home,
    End,
    Enter,
    Back,
    Search,
    Add,
    Generate,
    Delete,
    CopyPassword,
    CopyUsername,
    CopyUrl,
    Edit,
    Reveal,
    NewVault,
    Reroll,
    TabNext,
    TabPrev,
    Save,
}

/// The key of every action.
#[derive(Clone, Copy, Debug)]
pub struct KeyBindings {
    pub quit: KeyBinding,
    pub help: KeyBinding,
    pub lock: KeyBinding,
    pub up: KeyBinding,
    pub down: KeyBinding,
    pub up_alt: KeyBinding,
    pub down_alt: KeyBinding,
    pub page_up: KeyBinding,
    pub page_down: KeyBinding,
    pub home: KeyBinding,
    pub end: KeyBinding,
    pub enter: KeyBinding,
    pub back: KeyBinding,
    pub search: KeyBinding,
    pub add: KeyBinding,
    pub generate: KeyBinding,
    pub delete: KeyBinding,
    pub copy_password: KeyBinding,
    pub copy_username: KeyBinding,
    pub copy_url: KeyBinding,
    pub edit: KeyBinding,
    pub reveal: KeyBinding,
    pub new_vault: KeyBinding,
    pub left: KeyBinding,
    pub right: KeyBinding,
    pub reroll: KeyBinding,
    pub tab_next: KeyBinding,
    pub tab_prev: KeyBinding,
    pub save: KeyBinding,
}

/// The bindings the terminal UI ships with.
pub open spec fn spec_default_bindings() -> KeyBindings {
    KeyBindings {
        quit: KeyBinding { code: Key::Char('q'), modifiers: MOD_NONE },
        help: KeyBinding { code: Key::Char('?'), modifiers: MOD_NONE },
        lock: KeyBinding { code: Key::Char('L'), modifiers: MOD_SHIFT },
        up: KeyBinding { code: Key::Up, modifiers: MOD_NONE },
        down: KeyBinding { code: Key::Down, modifiers: MOD_NONE },
        up_alt: KeyBinding { code: Key::Char('k'), modifiers: MOD_NONE },
        down_alt: KeyBinding { code: Key::Char('j'), modifiers: MOD_NONE },
        page_up: KeyBinding { code: Key::PageUp, modifiers: MOD_NONE },
        page_down: KeyBinding { code: Key::PageDown, modifiers: MOD_NONE },
        home: KeyBinding { code: Key::Home, modifiers: MOD_NONE },
        end: KeyBinding { code: Key::End, modifiers: MOD_NONE },
        enter: KeyBinding { code: Key::Enter, modifiers: MOD_NONE },
        back: KeyBinding { code: Key::Esc, modifiers: MOD_NONE },
        search: KeyBinding { code: Key::Char('/'), modifiers: MOD_NONE },
        add: KeyBinding { code: Key::Char('a'), modifiers: MOD_NONE },
        generate: KeyBinding { code: Key::Char('g'), modifiers: MOD_NONE },
        delete: KeyBinding { code: Key::Char('d'), modifiers: MOD_NONE },
        copy_password: KeyBinding { code: Key::Char('c'), modifiers: MOD_NONE },
        copy_username: KeyBinding { code: Key::Char('u'), modifiers: MOD_NONE },
        copy_url: KeyBinding { code: Key::Char('l'), modifiers: MOD_NONE },
        edit: KeyBinding { code: Key::Char('e'), modifiers: MOD_NONE },
        reveal: KeyBinding { code: Key::Char(' '), modifiers: MOD_NONE },
        new_vault: KeyBinding { code: Key::Char('n'), modifiers: MOD_NONE },
        left: KeyBinding { code: Key::Left, modifiers: MOD_NONE },
        right: KeyBinding { code: Key::Right, modifiers: MOD_NONE },
        reroll: KeyBinding { code: Key::Char('r'), modifiers: MOD_NONE },
        tab_next: KeyBinding { code: Key::Tab, modifiers: MOD_NONE },
        tab_prev: KeyBinding { code: Key::BackTab, modifiers: MOD_NONE },
        save: KeyBinding { code: Key::Char('s'), modifiers: MOD_CONTROL },
    }
}

impl Default for KeyBindings {
    fn default() -> (b: Self)
        ensures
            b == spec_default_bindings(),
    {
        KeyBindings {
            quit: kb(Key::Char('q'), MOD_NONE),
            help: kb(Key::Char('?'), MOD_NONE),
            lock: kb(Key::Char('L'), MOD_SHIFT),
            up: kb(Key::Up, MOD_NONE),
            down: kb(Key::Down, MOD_NONE),
            up_alt: kb(Key::Char('k'), MOD_NONE),
            down_alt: kb(Key::Char('j'), MOD_NONE),
            page_up: kb(Key::PageUp, MOD_NONE),
            page_down: kb(Key::PageDown, MOD_NONE),
            home: kb(Key::Home, MOD_NONE),
            end: kb(Key::End, MOD_NONE),
            enter: kb(Key::Enter, MOD_NONE),
            back: kb(Key::Esc, MOD_NONE),
            search: kb(Key::Char('/'), MOD_NONE),
            add: kb(Key::Char('a'), MOD_NONE),
            generate: kb(Key::Char('g'), MOD_NONE),
            delete: kb(Key::Char('d'), MOD_NONE),
            copy_password: kb(Key::Char('c'), MOD_NONE),
            copy_username: kb(Key::Char('u'), MOD_NONE),
            copy_url: kb(Key::Char('l'), MOD_NONE),
            edit: kb(Key::Char('e'), MOD_NONE),
            reveal: kb(Key::Char(' '), MOD_NONE),
            new_vault: kb(Key::Char('n'), MOD_NONE),
            left: kb(Key::Left, MOD_NONE),
            right: kb(Key::Right, MOD_NONE),
            reroll: kb(Key::Char('r'), MOD_NONE),
            tab_next: kb(Key::Tab, MOD_NONE),
            tab_prev: kb(Key::BackTab, MOD_NONE),
            save: kb(Key::Char('s'), MOD_CONTROL),
        }
    }
}

/// The actions that fire even while a text field has focus, in the order in
/// which their keys are tried.
pub open spec fn spec_global_table(b: KeyBindings) -> Seq<(Action, KeyBinding)> {
    seq![
        (Action::Back, b.back),
        (Action::TabNext, b.tab_next),
        (Action::TabPrev, b.tab_prev),
        (Action::Save, b.save),
    ]
}

/// All other actions, in the order in which their keys are tried. Up and
/// Down each have a second key.
pub open spec fn spec_bound_table(b: KeyBindings) -> Seq<(Action, KeyBinding)> {
    seq![
        (Action::Quit, b.quit),
        (Action::Help, b.help),
        (Action::Lock, b.lock),
        (Action::Up, b.up),
        (Action::Up, b.up_alt),
        (Action::Down, b.down),
        (Action::Down, b.down_alt),
        (Action::Left, b.left),
        (Action::Right, b.right),
        (Action::PageUp, b.page_up),
        (Action::PageDown, b.page_down),
        (Action::Home, b.home),
        (Action::End, b.end),
        (Action::Enter, b.enter),
        (Action::Search, b.search),
        (Action::Add, b.add),
        (Action::Generate, b.generate),
        (Action::Delete, b.delete),
        (Action::CopyPassword, b.copy_password),
        (Action::CopyUsername, b.copy_username),
        (Action::CopyUrl, b.copy_url),
        (Action::Edit, b.edit),
        (Action::Reveal, b.reveal),
        (Action::NewVault, b.new_vault),
        (Action::Reroll, b.reroll),
    ]
}

/// The action of the first row of `table` whose binding matches `key`.
pub open spec fn spec_resolve(key: KeyPress, table: Seq<(Action, KeyBinding)>) -> Option<Action>
    decreases table.len(),
{
    if table.len() == 0 {
        None
    } else if spec_matches(table[0].1, key) {
        Some(table[0].0)
    } else {
        spec_resolve(key, table.drop_first())
    }
}

/// The first row of `table` whose binding matches `key`, as its action.
fn resolve(key: KeyPress, table: &Vec<(Action, KeyBinding)>) -> (r: Option<Action>)
    ensures
        r == spec_resolve(key, table@),
{
    let mut i: usize = 0;
    assert(table@.subrange(0, table@.len() as int) =~= table@);
    while i < table.len()
        invariant
            i <= table@.len(),
            spec_resolve(key, table@) == spec_resolve(key, table@.subrange(i as int, table@.len() as int)),
        decreases table@.len() - i,
    {
        let ghost rest = table@.subrange(i as int, table@.len() as int);
        assert(rest.drop_first() =~= table@.subrange(i + 1, table@.len() as int));
        if table[i].1.matches(key) {
            return Some(table[i].0);
        }
        i = i + 1;
    }
    assert(table@.subrange(i as int, table@.len() as int).len() == 0);
    None
}

/// Maps key presses to actions with a set of bindings.
#[derive(Clone, Copy, Debug)]
pub struct ActionMapper {
    pub bindings: KeyBindings,
}

impl ActionMapper {
    /// A mapper for `bindings`.
    pub fn new(bindings: KeyBindings) -> (m: Self)
        ensures
            m.bindings == bindings,
    {
        ActionMapper { bindings }
    }

    /// The rows of the global table.
    fn global_table(&self) -> (t: Vec<(Action, KeyBinding)>)
        ensures
            t@ == spec_global_table(self.bindings),
    {
        let b = &self.bindings;
        let mut t: Vec<(Action, KeyBinding)> = Vec::new();
        t.push((Action::Back, b.back));
        t.push((Action::TabNext, b.tab_next));
        t.push((Action::TabPrev, b.tab_prev));
        t.push((Action::Save, b.save));
        assert(t@ =~= spec_global_table(self.bindings));
        t
    }

    /// The rows of the table of all other actions.
    fn bound_table(&self) -> (t: Vec<(Action, KeyBinding)>)
        ensures
            t@ == spec_bound_table(self.bindings),
    {
        let b = &self.bindings;
        let mut t: Vec<(Action, KeyBinding)> = Vec::new();
        t.push((Action::Quit, b.quit));
        t.push((Action::Help, b.help));
        t.push((Action::Lock, b.lock));
        t.push((Action::Up, b.up));
        t.push((Action::Up, b.up_alt));
        t.push((Action::Down, b.down));
        t.push((Action::Down, b.down_alt));
        t.push((Action::Left, b.left));
        t.push((Action::Right, b.right));
        t.push((Action::PageUp, b.page_up));
        t.push((Action::PageDown, b.page_down));
        t.push((Action::Home, b.home));
        t.push((Action::End, b.end));
        t.push((Action::Enter, b.enter));
        t.push((Action::Search, b.search));
        t.push((Action::Add, b.add));
        t.push((Action::Generate, b.generate));
        t.push((Action::Delete, b.delete));
        t.push((Action::CopyPassword, b.copy_password));
        t.push((Action::CopyUsername, b.copy_username));
        t.push((Action::CopyUrl, b.copy_url));
        t.push((Action::Edit, b.edit));
        t.push((Action::Reveal, b.reveal));
        t.push((Action::NewVault, b.new_vault));
        t.push((Action::Reroll, b.reroll));
        assert(t@ =~= spec_bound_table(self.bindings));
        t
    }

    /// The action of a key that works on every screen, even while a text field
    /// has focus: back, field navigation and save.
    pub fn map_global(&self, key: KeyPress) -> (r: Option<Action>)
        ensures
            r == spec_resolve(key, spec_global_table(self.bindings)),
    {
        let t = self.global_table();
        resolve(key, &t)
    }

    /// The action of any other key; used only when no text field took the key.
    pub fn map(&self, key: KeyPress) -> (r: Option<Action>)
        ensures
            r == spec_resolve(key, spec_bound_table(self.bindings)),
    {
        let t = self.bound_table();
        resolve(key, &t)
    }
}

} // verus!
