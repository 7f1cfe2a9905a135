//! The decisions of the vault commands: which entry a name stands for, what
//! an edit changes, and whether a deletion or a new password is confirmed.
//! Input comes through an [`InputSource`]; sealing, writing and printing are
//! left to the caller.
use crate::cli::FieldSelector;
use crate::error::io_error_text;
use crate::model::{
    lemma_first_unique, spec_find, spec_first_index, spec_first_with_id, spec_has_id, spec_opt_view, spec_ref_views,
    Entry, EntryView, SecretString, Vault, VaultView,
};
use crate::password_gen::{generate_password, spec_valid_password, PasswordPolicy};
use crate::prompts::{
    answer_is_y, read_line_of, read_password_of, spec_is_y, spec_reads_line, spec_reads_password,
    InputSource,
};
use crate::text::{
    decimal, parse_usize, spec_decimal, spec_eq_ignore_ascii_case, spec_or_empty, spec_parse_usize,
    spec_trim, str_eq, to_owned_string, trim,
};
use crate::CoreError;
use vstd::prelude::*;

verus! {

/// Why a command could not be carried out.
#[derive(Debug)]
pub enum HandlerError {
    /// No entry has the given name.
    NoEntryFound(String),
    /// The answer to "Choose one by index" is not an index of the list.
    InvalidSelection,
    /// The two typed passwords differ.
    PasswordsDoNotMatch,
    /// The entry to change is not in the vault.
    EntryNotFound,
    /// Reading the user's input failed.
    Input(std::io::Error),
    /// The vault refused the change.
    Core(CoreError),
}

impl HandlerError {
    /// The message shown to the user.
    pub fn message(&self) -> (r: String)
        ensures
            self matches HandlerError::NoEntryFound(n) ==> r@ == "No entry found for '"@ + n@ + "'"@,
            self is InvalidSelection ==> r@ == "Invalid selection"@,
            self is PasswordsDoNotMatch ==> r@ == "Passwords do not match"@,
            self is EntryNotFound ==> r@ == "Entry not found"@,
    {
        match self {
            HandlerError::NoEntryFound(n) => {
                let mut m = to_owned_string("No entry found for '");
                m.append(n.as_str());
                m.append("'");
                m
            },
            HandlerError::InvalidSelection => to_owned_string("Invalid selection"),
            HandlerError::PasswordsDoNotMatch => to_owned_string("Passwords do not match"),
            HandlerError::EntryNotFound => to_owned_string("Entry not found"),
            HandlerError::Input(e) => io_error_text(e),
            HandlerError::Core(e) => e.message(),
        }
    }
}

/// The entries whose name equals `name` up to ASCII case, in vault order.
pub open spec fn spec_named(v: VaultView, name: Seq<char>) -> Seq<EntryView> {
    v.entries.filter(|e: EntryView| spec_eq_ignore_ascii_case(e.name, name))
}

/// The username shown in the list of candidates.
pub open spec fn spec_username_label(e: EntryView) -> Seq<char> {
    match e.username {
        Some(u) => u,
        None => "no username"@,
    }
}

/// One line of the list of candidates: `  [k] name (username)`.
pub open spec fn spec_choice_line(k: nat, e: EntryView) -> Seq<char> {
    "  ["@ + spec_decimal(k) + "] "@ + e.name + " ("@ + spec_username_label(e) + ")\n"@
}

/// The lines of the list of candidates, numbered from 0.
pub open spec fn spec_choice_lines(es: Seq<EntryView>) -> Seq<char>
    decreases es.len(),
{
    if es.len() == 0 {
        Seq::empty()
    } else {
        spec_choice_lines(es.drop_last()) + spec_choice_line((es.len() - 1) as nat, es.last())
    }
}

/// The list shown before asking which of the entries sharing a name is
/// meant.
pub open spec fn spec_choice_listing(name: Seq<char>, es: Seq<EntryView>) -> Seq<char> {
    "Multiple entries found for '"@ + name + "':\n"@ + spec_choice_lines(es)
}

/// The list of the entries in `matches`, numbered from 0, under a heading
/// naming `name`.
pub fn choice_listing(name: &str, matches: &Vec<&Entry>) -> (r: String)
    ensures
        r@ == spec_choice_listing(name@, spec_ref_views(matches@)),
{
    let ghost es = spec_ref_views(matches@);
    let mut lines = String::new();
    let n = matches.len();
    let mut k: usize = 0;
    while k < n
        invariant
            k <= n,
            n == matches@.len(),
            es == spec_ref_views(matches@),
            lines@ == spec_choice_lines(es.take(k as int)),
        decreases n - k,
    {
        let e = matches[k];
        lines.append("  [");
        lines.append(decimal(k as u64).as_str());
        lines.append("] ");
        lines.append(e.name());
        lines.append(" (");
        match e.username() {
            Some(u) => lines.append(u),
            None => lines.append("no username"),
        }
        lines.append(")\n");
        proof {
            assert(es.take(k + 1).drop_last() =~= es.take(k as int));
            assert(es.take(k + 1).last() == e@);
        }
        assert(lines@ =~= spec_choice_lines(es.take(k + 1)));
        k = k + 1;
    }
    assert(es.take(n as int) =~= es);
    let mut r = to_owned_string("Multiple entries found for '");
    r.append(name);
    r.append("':\n");
    r.append(lines.as_str());
    r
}

/// The list to show before [`resolve_entry_id`] asks for a choice: present
/// exactly when several entries share the name.
pub fn choices_for(vault: &Vault, name: &str) -> (r: Option<String>)
    ensures
        spec_named(vault@, name@).len() <= 1 ==> r is None,
        spec_named(vault@, name@).len() > 1 ==> (r matches Some(t) && t@ == spec_choice_listing(
            name@,
            spec_named(vault@, name@),
        )),
{
    let matches = vault.find_by_name(name);
    if matches.len() <= 1 {
        None
    } else {
        Some(choice_listing(name, &matches))
    }
}

/// The id an answer picks from a list of entries: the answer must read as
/// an index of the list (as `usize::from_str` reads it).
pub open spec fn spec_selected(es: Seq<EntryView>, answer: Seq<char>) -> Option<u128> {
    match spec_parse_usize(answer) {
        Some(k) => if k < es.len() {
            Some(es[k as int].id)
        } else {
            None
        },
        None => None,
    }
}

/// The id of the entry an answer picks from `matches`; any other answer is
/// an invalid selection.
pub fn select_match(matches: &Vec<&Entry>, answer: &str) -> (r: Result<u128, HandlerError>)
    ensures
        r is Ok <==> spec_selected(spec_ref_views(matches@), answer@) is Some,
        r matches Ok(id) ==> spec_selected(spec_ref_views(matches@), answer@) == Some(id),
        r is Err ==> r matches Err(HandlerError::InvalidSelection),
{
    match parse_usize(answer) {
        Some(k) => {
            if k < matches.len() {
                Ok(matches[k].id())
            } else {
                Err(HandlerError::InvalidSelection)
            }
        },
        None => Err(HandlerError::InvalidSelection),
    }
}

/// The entry a name stands for. With no match it fails; with one match it is
/// that entry; with several the user picks one by index, answering
/// `Choose one by index: ` (the caller shows [`choices_for`] first).
pub fn resolve_entry_id<I: InputSource>(vault: &Vault, name: &str, input: &mut I) -> (r: Result<
    u128,
    HandlerError,
>)
    ensures
        spec_named(vault@, name@).len() == 0 ==> (r matches Err(HandlerError::NoEntryFound(n))
            && n@ == name@),
        spec_named(vault@, name@).len() <= 1 ==> *final(input) == *old(input),
        spec_named(vault@, name@).len() == 1 ==> r == Ok::<u128, HandlerError>(
            spec_named(vault@, name@)[0].id,
        ),
        spec_named(vault@, name@).len() > 1 ==> match r {
            Ok(id) => exists|answer: Seq<char>|
                spec_selected(spec_named(vault@, name@), answer) == Some(id),
            Err(e) => e is InvalidSelection || e is Input,
        },
        spec_named(vault@, name@).len() > 1 ==> exists|a: std::io::Result<String>|
            #[trigger] spec_reads_line(*old(input), "Choose one by index: "@, a) && match a {
                Ok(t) => match spec_selected(spec_named(vault@, name@), t@) {
                    Some(id) => r == Ok::<u128, HandlerError>(id),
                    None => r matches Err(HandlerError::InvalidSelection),
                },
                Err(e) => r matches Err(HandlerError::Input(e2)) && e2 == e,
            },
{
    let matches = vault.find_by_name(name);
    let ghost es = spec_ref_views(matches@);
    assert(es == spec_named(vault@, name@));
    if matches.len() == 0 {
        return Err(HandlerError::NoEntryFound(to_owned_string(name)));
    }
    if matches.len() == 1 {
        assert(es[0] == matches@[0]@);
        return Ok(matches[0].id());
    }
    let read = read_line_of(input, "Choose one by index: ");
    let ghost a = read;
    let answer = match read {
        Ok(a) => a,
        Err(e) => return Err(HandlerError::Input(e)),
    };
    let r = select_match(&matches, answer.as_str());
    proof {
        if let Ok(id) = r {
            assert(spec_selected(spec_named(vault@, name@), answer@) == Some(id));
        }
    }
    r
}

/// Every entry sharing the name is in the vault, so its id is found there.
proof fn lemma_named_has_id(v: VaultView, name: Seq<char>, k: int)
    requires
        0 <= k < spec_named(v, name).len(),
    ensures
        spec_has_id(v.entries, spec_named(v, name)[k].id),
{
    let p = |e: EntryView| spec_eq_ignore_ascii_case(e.name, name);
    let x = spec_named(v, name)[k];
    assert(v.entries.filter(p) == spec_named(v, name));
    assert(v.entries.filter(p).contains(x));
    v.entries.lemma_filter_contains_rev(p, x);
    let i = choose|i: int| 0 <= i < v.entries.len() && v.entries[i] == x;
    assert(v.entries[i].id == x.id);
}

/// The entry a name stands for: the name is resolved as
/// [`resolve_entry_id`] does, then the entry is looked up by its id.
pub fn lookup_entry<'a, I: InputSource>(vault: &'a Vault, name: &str, input: &mut I) -> (r: Result<
    &'a Entry,
    HandlerError,
>)
    ensures
        spec_named(vault@, name@).len() == 0 ==> (r matches Err(HandlerError::NoEntryFound(n))
            && n@ == name@),
        spec_named(vault@, name@).len() <= 1 ==> *final(input) == *old(input),
        spec_named(vault@, name@).len() == 1 ==> (r matches Ok(e) && spec_find(
            vault@.entries,
            spec_named(vault@, name@)[0].id,
        ) == Some(e@)),
        spec_named(vault@, name@).len() > 1 ==> match r {
            Ok(e) => exists|answer: Seq<char>|
                #[trigger] spec_selected(spec_named(vault@, name@), answer) == Some(e@.id)
                    && spec_find(vault@.entries, e@.id) == Some(e@),
            Err(e) => e is InvalidSelection || e is Input,
        },
{
    let id = resolve_entry_id(vault, name, input)?;
    proof {
        let es = spec_named(vault@, name@);
        if es.len() == 1 {
            lemma_named_has_id(vault@, name@, 0);
        } else {
            let answer = choose|answer: Seq<char>| spec_selected(es, answer) == Some(id);
            let k = spec_parse_usize(answer).unwrap() as int;
            lemma_named_has_id(vault@, name@, k);
        }
    }
    match vault.find_by_id(id) {
        Some(e) => {
            proof {
                let j = choose|j: int| spec_first_with_id(vault@.entries, id, j) && e@ == vault@.entries[j];
                let m = choose|m: int| spec_first_with_id(vault@.entries, id, m);
                lemma_first_unique(vault@.entries, id, j, m);
            }
            Ok(e)
        },
        None => Err(HandlerError::EntryNotFound),
    }
}

/// Removes the entry a name stands for once the removal is confirmed (at
/// once with `yes`, else by the answer `y` to `Delete '<name>'? (y/N): `).
/// It gives the removed entry, or `None` when the removal was declined;
/// then, as on any error, the vault is unchanged.
pub fn remove_named<I: InputSource>(vault: &mut Vault, name: &str, input: &mut I, yes: bool) -> (r:
    Result<Option<Entry>, HandlerError>)
    ensures
        spec_named(old(vault)@, name@).len() == 0 ==> (r matches Err(HandlerError::NoEntryFound(n))
            && n@ == name@),
        r is Err ==> *final(vault) == *old(vault),
        r matches Ok(None) ==> *final(vault) == *old(vault),
        r matches Ok(Some(e)) ==> exists|i: int|
            spec_first_with_id(old(vault)@.entries, e@.id, i) && e@ == old(vault)@.entries[i]
                && final(vault)@ == (VaultView { entries: old(vault)@.entries.remove(i), ..old(vault)@ }),
        r matches Ok(Some(e)) ==> exists|k: int|
            0 <= k < spec_named(old(vault)@, name@).len() && #[trigger] spec_named(
                old(vault)@,
                name@,
            )[k].id == e@.id,
        yes && spec_named(old(vault)@, name@).len() == 1 ==> *final(input) == *old(input),
        yes && spec_named(old(vault)@, name@).len() == 1 ==> (r matches Ok(Some(e)) && e@.id
            == spec_named(old(vault)@, name@)[0].id),
        !yes && spec_named(old(vault)@, name@).len() == 1 ==> exists|a: std::io::Result<String>|
            #[trigger] spec_reads_line(
                *old(input),
                spec_deletion_prompt(
                    spec_find(old(vault)@.entries, spec_named(old(vault)@, name@)[0].id)->Some_0.name,
                ),
                a,
            ) && match a {
                Ok(t) => if spec_is_y(t@) {
                    r matches Ok(Some(e)) && e@.id == spec_named(old(vault)@, name@)[0].id
                } else {
                    r matches Ok(None)
                },
                Err(e) => r matches Err(HandlerError::Input(e2)) && e2 == e,
            },
{
    let id = resolve_entry_id(vault, name, input)?;
    let ghost es = spec_named(vault@, name@);
    proof {
        if es.len() == 1 {
            lemma_named_has_id(vault@, name@, 0);
            assert(es[0].id == id);
        } else {
            let answer = choose|answer: Seq<char>| spec_selected(es, answer) == Some(id);
            let k = spec_parse_usize(answer).unwrap() as int;
            lemma_named_has_id(vault@, name@, k);
            assert(es[k].id == id);
        }
    }
    let entry_name = match vault.find_by_id(id) {
        Some(e) => to_owned_string(e.name()),
        None => to_owned_string(name),
    };
    let go = confirm_deletion(input, entry_name.as_str(), yes)?;
    if !go {
        return Ok(None);
    }
    match vault.remove_by_id(id) {
        Ok(e) => Ok(Some(e)),
        Err(e) => Err(HandlerError::Core(e)),
    }
}

/// The answers to the edit prompts; an empty answer keeps the current value.
pub struct EditAnswers {
    pub name: String,
    pub username: String,
    pub password: String,
    pub url: String,
    pub notes: String,
}

/// The entry after an edit, where `stamp` is the time of the change: each
/// non-empty answer replaces its field; the name is stored trimmed.
pub open spec fn spec_edited(e: EntryView, a: (Seq<char>, Seq<char>, Seq<char>, Seq<char>, Seq<char>), stamp: i128) -> EntryView {
    EntryView {
        name: if a.0.len() > 0 {
            spec_trim(a.0)
        } else {
            e.name
        },
        username: if a.1.len() > 0 {
            Some(a.1)
        } else {
            e.username
        },
        password: if a.2.len() > 0 {
            a.2
        } else {
            e.password
        },
        url: if a.3.len() > 0 {
            Some(a.3)
        } else {
            e.url
        },
        notes: if a.4.len() > 0 {
            Some(a.4)
        } else {
            e.notes
        },
        updated_at: stamp,
        ..e
    }
}

impl EditAnswers {
    /// The texts of the answers.
    pub open spec fn texts(&self) -> (Seq<char>, Seq<char>, Seq<char>, Seq<char>, Seq<char>) {
        (self.name@, self.username@, self.password@, self.url@, self.notes@)
    }
}

/// Applies the answers of an edit to an entry. A new name that is only white
/// space is refused before anything changes.
pub fn apply_edit_answers(entry: &mut Entry, answers: EditAnswers) -> (r: Result<(), CoreError>)
    ensures
        r is Err <==> answers.name@.len() > 0 && spec_trim(answers.name@).len() == 0,
        r is Err ==> (r matches Err(CoreError::EmptyName) && *final(entry) == *old(entry)),
        r is Ok ==> (answers.name@.len() > 0 || answers.username@.len() > 0 || answers.password@.len() > 0
            || answers.url@.len() > 0 || answers.notes@.len() > 0) ==> final(entry)@ == spec_edited(
            old(entry)@,
            answers.texts(),
            final(entry)@.updated_at,
        ),
        r is Ok ==> !(answers.name@.len() > 0 || answers.username@.len() > 0 || answers.password@.len() > 0
            || answers.url@.len() > 0 || answers.notes@.len() > 0) ==> *final(entry) == *old(entry),
{
    let EditAnswers { name, username, password, url, notes } = answers;
    if !name.as_str().is_empty() {
        if let Err(e) = entry.rename(name) {
            return Err(e);
        }
    }
    if !username.as_str().is_empty() {
        entry.set_username(Some(username));
    }
    if !password.as_str().is_empty() {
        entry.set_password(SecretString::new(password));
    }
    if !url.as_str().is_empty() {
        entry.set_url(Some(url));
    }
    if !notes.as_str().is_empty() {
        entry.set_notes(Some(notes));
    }
    Ok(())
}

/// `label [current]: `
fn field_prompt(label: &str, current: &str) -> (r: String)
    ensures
        r@ == label@ + " ["@ + current@ + "]: "@,
{
    let mut p = to_owned_string(label);
    p.append(" [");
    p.append(current);
    p.append("]: ");
    p
}

/// An answer from what reading it gave: the text, or the read error as an
/// input error.
pub fn answer_from(read: std::io::Result<String>) -> (r: Result<String, HandlerError>)
    ensures
        read matches Ok(a) ==> (r matches Ok(t) && t@ == a@),
        read matches Err(e) ==> (r matches Err(HandlerError::Input(e2)) && e2 == e),
{
    match read {
        Ok(a) => Ok(a),
        Err(e) => Err(HandlerError::Input(e)),
    }
}

/// Reads one answer.
fn ask<I: InputSource>(input: &mut I, prompt: &str, secret: bool) -> (r: Result<String, HandlerError>)
    ensures
        r matches Err(e) ==> e is Input,
        secret ==> exists|a: std::io::Result<String>|
            #[trigger] spec_reads_password(*old(input), prompt@, a) && spec_answer_result(a, r),
        !secret ==> exists|a: std::io::Result<String>|
            #[trigger] spec_reads_line(*old(input), prompt@, a) && spec_answer_result(a, r),
{
    let read = if secret {
        read_password_of(input, prompt)
    } else {
        read_line_of(input, prompt)
    };
    let ghost a = read;
    let r = answer_from(read);
    assert(spec_answer_result(a, r));
    r
}

/// `r` is what the read `a` gives as an answer: its text, or its error as
/// an input error.
pub open spec fn spec_answer_result(a: std::io::Result<String>, r: Result<String, HandlerError>) -> bool {
    match a {
        Ok(t) => r matches Ok(u) && u@ == t@,
        Err(e) => r matches Err(HandlerError::Input(e2)) && e2 == e,
    }
}

/// `a` and then `b` are what reading two secrets at `prompt` and then at
/// `confirm_prompt` can give, starting from the input source in state `s`.
pub open spec fn spec_reads_twice<I: InputSource>(
    s: I,
    prompt: Seq<char>,
    confirm_prompt: Seq<char>,
    a: Seq<char>,
    b: Seq<char>,
) -> bool {
    exists|mid: I, sa: String, sb: String|
        #![trigger spec_reads_password(s, prompt, Ok::<String, std::io::Error>(sa)), spec_reads_password(mid, confirm_prompt, Ok::<String, std::io::Error>(sb))]
        spec_reads_password(s, prompt, Ok::<String, std::io::Error>(sa)) && spec_reads_password(
            mid,
            confirm_prompt,
            Ok::<String, std::io::Error>(sb),
        ) && sa@ == a && sb@ == b
}

/// `Delete '<entry_name>'? (y/N): `
pub open spec fn spec_deletion_prompt(entry_name: Seq<char>) -> Seq<char> {
    "Delete '"@ + entry_name + "'? (y/N): "@
}

/// `r` is what the read `a` gives as an answer to a question that only `y`
/// (or `Y`) accepts: whether the line is exactly that, or its error as an
/// input error.
pub open spec fn spec_y_result(a: std::io::Result<String>, r: Result<bool, HandlerError>) -> bool {
    match a {
        Ok(t) => r == Ok::<bool, HandlerError>(spec_is_y(t@)),
        Err(e) => r matches Err(HandlerError::Input(e2)) && e2 == e,
    }
}

/// The question asked before deleting the entry `entry_name`.
pub fn deletion_prompt(entry_name: &str) -> (r: String)
    ensures
        r@ == spec_deletion_prompt(entry_name@),
        r@ == "Delete '"@ + entry_name@ + "'? (y/N): "@,
{
    let mut prompt = to_owned_string("Delete '");
    prompt.append(entry_name);
    prompt.append("'? (y/N): ");
    prompt
}

/// Some answer of an edit is non-empty.
pub open spec fn spec_any_answer(t: (Seq<char>, Seq<char>, Seq<char>, Seq<char>, Seq<char>)) -> bool {
    t.0.len() > 0 || t.1.len() > 0 || t.2.len() > 0 || t.3.len() > 0 || t.4.len() > 0
}

/// `after` is `before` with the answers `t` applied to the entry with id
/// `id`: only that entry changes, and it becomes the edited entry (stamped
/// with the time of the change) when some answer is non-empty, else it stays.
pub open spec fn spec_edit_applied(
    before: VaultView,
    after: VaultView,
    id: u128,
    t: (Seq<char>, Seq<char>, Seq<char>, Seq<char>, Seq<char>),
) -> bool {
    let k = spec_first_index(before.entries, id);
    &&& spec_has_id(before.entries, id)
    &&& after == (VaultView { entries: before.entries.update(k, after.entries[k]), ..before })
    &&& spec_any_answer(t) ==> after.entries[k] == spec_edited(
        before.entries[k],
        t,
        after.entries[k].updated_at,
    )
    &&& !spec_any_answer(t) ==> after.entries[k] == before.entries[k]
}

/// Applies the answers of an edit to the entry with id `id`. It fails when
/// no entry has that id, or when a new name is only white space; then the
/// vault is unchanged.
pub fn edit_entry_with(vault: &mut Vault, id: u128, answers: EditAnswers) -> (r: Result<(), HandlerError>)
    ensures
        !spec_has_id(old(vault)@.entries, id) ==> (r matches Err(HandlerError::EntryNotFound)
            && *final(vault) == *old(vault)),
        spec_has_id(old(vault)@.entries, id) && answers.name@.len() > 0 && spec_trim(
            answers.name@,
        ).len() == 0 ==> (r matches Err(HandlerError::Core(CoreError::EmptyName)) && final(vault)@
            == old(vault)@),
        r is Ok <==> spec_has_id(old(vault)@.entries, id) && !(answers.name@.len() > 0 && spec_trim(
            answers.name@,
        ).len() == 0),
        r is Ok ==> spec_edit_applied(old(vault)@, final(vault)@, id, answers.texts()),
{
    let ghost before = vault@;
    let ghost t = answers.texts();
    let r = match vault.find_by_id_mut(id) {
        Some(entry) => match apply_edit_answers(entry, answers) {
            Ok(()) => Ok(()),
            Err(e) => Err(HandlerError::Core(e)),
        },
        None => Err(HandlerError::EntryNotFound),
    };
    proof {
        if spec_has_id(before.entries, id) {
            let k = spec_first_index(before.entries, id);
            let j = choose|j: int|
                spec_first_with_id(before.entries, id, j) && vault@ == (VaultView {
                    entries: before.entries.update(j, vault@.entries[j]),
                    ..before
                });
            assert(spec_first_with_id(before.entries, id, k));
            lemma_first_unique(before.entries, id, j, k);
            if r is Err {
                assert(before.entries.update(j, before.entries[j]) =~= before.entries);
            }
        }
    }
    r
}

/// Edits the entry with id `id`: asks for each field in turn, showing its
/// current value (an empty answer keeps it), then applies the answers. The
/// caller first tells the user that an empty answer keeps a field.
pub fn edit_entry<I: InputSource>(vault: &mut Vault, id: u128, input: &mut I) -> (r: Result<(), HandlerError>)
    ensures
        !spec_has_id(old(vault)@.entries, id) ==> (r matches Err(HandlerError::EntryNotFound)
            && *final(vault) == *old(vault)),
        r is Err ==> final(vault)@ == old(vault)@,
        r is Ok ==> exists|t: (Seq<char>, Seq<char>, Seq<char>, Seq<char>, Seq<char>)|
            spec_edit_applied(old(vault)@, final(vault)@, id, t),
{
    let (current_name, current_username, current_url) = match vault.find_by_id(id) {
        Some(e) => (
            to_owned_string(e.name()),
            match e.username() {
                Some(u) => to_owned_string(u),
                None => String::new(),
            },
            match e.url() {
                Some(u) => to_owned_string(u),
                None => String::new(),
            },
        ),
        None => return Err(HandlerError::EntryNotFound),
    };
    let name = ask(input, field_prompt("Service name", current_name.as_str()).as_str(), false)?;
    let username = ask(input, field_prompt("Username", current_username.as_str()).as_str(), false)?;
    let password = ask(input, "New password (leave empty to keep current): ", true)?;
    let url = ask(input, field_prompt("URL", current_url.as_str()).as_str(), false)?;
    let notes = ask(input, "Notes (leave empty to keep current): ", false)?;
    let answers = EditAnswers { name, username, password, url, notes };
    let ghost t = answers.texts();
    let r = edit_entry_with(vault, id, answers);
    proof {
        if r is Ok {
            assert(spec_edit_applied(old(vault)@, vault@, id, t));
        }
    }
    r
}

/// An answer from what reading it gave: whether it is exactly `y` or `Y`,
/// or the read error as an input error.
pub fn y_answer_from(read: std::io::Result<String>) -> (r: Result<bool, HandlerError>)
    ensures
        read matches Ok(a) ==> (r matches Ok(b) && b == spec_is_y(a@)),
        read matches Err(e) ==> (r matches Err(HandlerError::Input(e2)) && e2 == e),
{
    match read {
        Ok(a) => Ok(answer_is_y(a.as_str())),
        Err(e) => Err(HandlerError::Input(e)),
    }
}

/// Whether a deletion goes ahead: at once with `--yes`, else when the user
/// answers `y` to `Delete '<name>'? (y/N): `.
pub fn confirm_deletion<I: InputSource>(input: &mut I, entry_name: &str, yes: bool) -> (r: Result<bool, HandlerError>)
    ensures
        yes ==> r == Ok::<bool, HandlerError>(true) && *final(input) == *old(input),
        r matches Err(e) ==> e is Input,
        !yes ==> exists|a: std::io::Result<String>|
            #[trigger] spec_reads_line(*old(input), spec_deletion_prompt(entry_name@), a)
                && spec_y_result(a, r),
{
    if yes {
        return Ok(true);
    }
    let prompt = deletion_prompt(entry_name);
    let read = read_line_of(input, prompt.as_str());
    let ghost a = read;
    let r = y_answer_from(read);
    assert(spec_y_result(a, r));
    r
}

/// Where the password of a new entry came from.
#[derive(Debug, Clone, Copy, PartialEq, Eq, Structural)]
pub enum PasswordOrigin {
    /// Generated at the requested length because generation was asked for on
    /// the command line.
    Requested,
    /// Generated with the default policy because the user said `y` when
    /// offered; it is to be copied to the clipboard or shown.
    Offered,
    /// Typed by the user.
    Typed,
}

/// All four character classes, ambiguous characters allowed, at `length`.
pub open spec fn spec_policy_of_length(length: usize) -> PasswordPolicy {
    PasswordPolicy {
        length,
        include_lowercase: true,
        include_uppercase: true,
        include_digits: true,
        include_symbols: true,
        exclude_ambiguous: false,
    }
}

/// The password of a new entry. With `generate` it is generated at `length`
/// without asking anything; otherwise the user is offered a generated one
/// (`Generate a random password? (y/N): `, exactly `y` accepts) and else
/// types one (`Entry password: `).
pub fn entry_password<I: InputSource>(input: &mut I, generate: bool, length: usize) -> (r: Result<
    (SecretString, PasswordOrigin),
    HandlerError,
>)
    ensures
        generate ==> *final(input) == *old(input),
        generate ==> (r is Ok <==> length > 0),
        generate && length == 0 ==> r matches Err(HandlerError::Core(CoreError::ZeroLength)),
        r matches Ok((p, o)) ==> (generate <==> o == PasswordOrigin::Requested),
        r matches Ok((p, o)) ==> (o == PasswordOrigin::Requested ==> spec_valid_password(
            spec_policy_of_length(length),
            p@,
        )),
        r matches Ok((p, o)) ==> (o == PasswordOrigin::Offered ==> spec_valid_password(
            spec_policy_of_length(20),
            p@,
        )),
        r matches Err(e) ==> e is Input || e is Core,
        !generate && r is Ok ==> exists|t: String|
            #[trigger] spec_reads_line(
                *old(input),
                "Generate a random password? (y/N): "@,
                Ok::<String, std::io::Error>(t),
            ) && (r matches Ok((p, o)) && (o == PasswordOrigin::Offered <==> spec_is_y(t@))),
        r matches Ok((p, o)) ==> (o == PasswordOrigin::Typed ==> exists|mid: I, t: String|
            #[trigger] spec_reads_password(mid, "Entry password: "@, Ok::<String, std::io::Error>(t))
                && p@ == t@),
{
    proof {
        reveal_strlit("abcdefghijklmnopqrstuvwxyz");
    }
    if generate {
        let policy = PasswordPolicy { length, ..PasswordPolicy::default() };
        assert(policy == spec_policy_of_length(length));
        return match generate_password(&policy) {
            Ok(p) => Ok((SecretString::new(p), PasswordOrigin::Requested)),
            Err(e) => Err(HandlerError::Core(e)),
        };
    }
    let read = read_line_of(input, "Generate a random password? (y/N): ");
    let ghost a = read;
    let offered = y_answer_from(read)?;
    if offered {
        let policy = PasswordPolicy::default();
        assert(policy == spec_policy_of_length(20));
        match generate_password(&policy) {
            Ok(p) => Ok((SecretString::new(p), PasswordOrigin::Offered)),
            Err(e) => Err(HandlerError::Core(e)),
        }
    } else {
        let ghost mid = *input;
        let typed_read = read_password_of(input, "Entry password: ");
        let ghost b = typed_read;
        let typed = answer_from(typed_read)?;
        let r = Ok((SecretString::new(typed), PasswordOrigin::Typed));
        proof {
            assert(spec_reads_password(mid, "Entry password: "@, b));
        }
        r
    }
}

/// The new password from its two typings: it is taken only when they are
/// equal.
pub fn new_password_from(password: String, confirm: String) -> (r: Result<SecretString, HandlerError>)
    ensures
        r is Ok <==> password@ == confirm@,
        r matches Ok(s) ==> s@ == password@,
        r is Err ==> r matches Err(HandlerError::PasswordsDoNotMatch),
{
    if !str_eq(password.as_str(), confirm.as_str()) {
        return Err(HandlerError::PasswordsDoNotMatch);
    }
    Ok(SecretString::new(password))
}

/// Reads a new password twice; the two must be equal.
pub fn read_new_password<I: InputSource>(input: &mut I, prompt: &str, confirm_prompt: &str) -> (r: Result<SecretString, HandlerError>)
    ensures
        r matches Err(e) ==> e is Input || e is PasswordsDoNotMatch,
        r matches Ok(s) ==> exists|a: Seq<char>|
            #[trigger] spec_reads_twice(*old(input), prompt@, confirm_prompt@, a, a) && s@ == a,
        r matches Err(HandlerError::PasswordsDoNotMatch) ==> exists|a: Seq<char>, b: Seq<char>|
            #[trigger] spec_reads_twice(*old(input), prompt@, confirm_prompt@, a, b) && a != b,
{
    let ghost start = *input;
    let password = ask(input, prompt, true)?;
    let ghost mid = *input;
    let confirm = ask(input, confirm_prompt, true)?;
    proof {
        let ra = choose|a: std::io::Result<String>|
            #[trigger] spec_reads_password(start, prompt@, a) && spec_answer_result(a, Ok::<String, HandlerError>(password));
        let rb = choose|a: std::io::Result<String>|
            #[trigger] spec_reads_password(mid, confirm_prompt@, a) && spec_answer_result(a, Ok::<String, HandlerError>(confirm));
        let sa = ra->Ok_0;
        let sb = rb->Ok_0;
        assert(ra == Ok::<String, std::io::Error>(sa));
        assert(rb == Ok::<String, std::io::Error>(sb));
        assert(spec_reads_twice(start, prompt@, confirm_prompt@, password@, confirm@));
    }
    new_password_from(password, confirm)
}

/// The text that `get --field` prints for a non-secret field: empty when the
/// entry has no such field.
pub fn field_text(entry: &Entry, field: FieldSelector) -> (r: String)
    requires
        field != FieldSelector::Password,
    ensures
        field == FieldSelector::Username ==> r@ == spec_or_empty(entry@.username),
        field == FieldSelector::Url ==> r@ == spec_or_empty(entry@.url),
        field == FieldSelector::Notes ==> r@ == spec_or_empty(entry@.notes),
{
    let t = match field {
        FieldSelector::Username => entry.username(),
        FieldSelector::Url => entry.url(),
        _ => match entry.notes() {
            Some(n) => Some(n.as_str()),
            None => None,
        },
    };
    match t {
        Some(s) => to_owned_string(s),
        None => String::new(),
    }
}

/// What `search` prints when nothing matched.
pub fn no_match_message(query: &str) -> (r: String)
    ensures
        spec_trim(query@).len() == 0 ==> r@ == "No entries stored."@,
        spec_trim(query@).len() > 0 ==> r@ == "No entries found for '"@ + spec_trim(query@) + "'."@,
{
    let q = trim(query);
    if q.as_str().is_empty() {
        to_owned_string("No entries stored.")
    } else {
        let mut m = to_owned_string("No entries found for '");
        m.append(q.as_str());
        m.append("'.");
        m
    }
}

} // verus!
