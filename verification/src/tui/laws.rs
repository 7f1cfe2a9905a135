//! Properties of the terminal UI's state machine that hold across key presses
//! and ticks.
use super::app::{
    spec_after_edit, spec_auto_lock, spec_back, spec_down, spec_elapsed, spec_end,
    spec_expire_status, spec_filter_rows, spec_finish_task, spec_generate_step, spec_has_buffer,
    spec_help, spec_home, spec_key_action, spec_key_step, spec_key_types, spec_lock_vault,
    spec_page_down, spec_page_up, spec_policy_of, spec_recompute, spec_row_matches, spec_tab_next,
    spec_tab_prev, spec_touch, spec_up, spec_vault_rows, spec_copy, spec_detail_entry, AppView, CopyField,
};
use super::keys::{
    spec_bound_table, spec_default_bindings, spec_global_table, spec_matches, spec_resolve, Action,
    Key, KeyBinding, KeyBindings, KeyPress, MOD_NONE,
};
use super::state::{
    AppSignal, EffectView, EntryRowView, Screen, TaskKind, TaskResultView, STATUS_LIFETIME_NANOS,
};
use crate::model::{spec_find, EntryView, VaultView};
use crate::password_gen::spec_valid_password;
use crate::text::spec_to_lowercase;
use vstd::prelude::*;

verus! {

/// While a background task runs, a key press changes nothing but the time of
/// the last activity, asks for no outside work and never quits.
pub proof fn lemma_busy_ignores_keys(
    s: AppView,
    key: KeyPress,
    now: u128,
    t: AppView,
    sig: AppSignal,
    eff: Option<EffectView>,
)
    requires
        s.pending is Some,
        spec_key_step(s, key, now, t, sig, eff),
    ensures
        t == spec_touch(s, now),
        sig == AppSignal::Continue,
        eff is None,
{
}

/// Only the quit action quits.
pub proof fn lemma_quit_only_by_quit_action(
    s: AppView,
    key: KeyPress,
    now: u128,
    t: AppView,
    sig: AppSignal,
    eff: Option<EffectView>,
)
    requires
        spec_key_step(s, key, now, t, sig, eff),
        sig == AppSignal::Quit,
    ensures
        spec_key_action(spec_touch(s, now), key) == Some(Action::Quit),
        t == spec_touch(s, now),
{
}

/// With the default bindings, a plain character typed while a text field has
/// focus goes into that field: it never triggers an action (so `q` does not
/// quit while typing a password), and it asks for no outside work.
pub proof fn lemma_typing_goes_to_the_field(
    s: AppView,
    c: char,
    now: u128,
    t: AppView,
    sig: AppSignal,
    eff: Option<EffectView>,
)
    requires
        s.bindings == spec_default_bindings(),
        s.pending is None,
        spec_has_buffer(s),
        spec_key_step(s, KeyPress { code: Key::Char(c), modifiers: MOD_NONE }, now, t, sig, eff),
    ensures
        sig == AppSignal::Continue,
        eff is None,
        t == spec_after_edit(spec_touch(s, now), Key::Char(c)),
        t.screen == s.screen,
        t.last_activity == now,
        s.screen == Screen::Unlock ==> t.unlock_password == s.unlock_password.push(c),
        s.screen == Screen::EntryList ==> t.search_query == s.search_query.push(c) && t.entries
            == spec_filter_rows(s.all_entries, s.search_query.push(c)) && t.all_entries
            == s.all_entries,
        s.screen == Screen::EntryForm && s.form_field_idx == 0 ==> t.form_fields.name
            == s.form_fields.name.push(c),
        s.screen == Screen::EntryForm && s.form_field_idx == 2 ==> t.form_fields.password
            == s.form_fields.password.push(c),
        s.screen == Screen::NewVault && s.new_vault_field_idx == 1 ==> t.new_vault_fields.password
            == s.new_vault_fields.password.push(c),
{
    let key = KeyPress { code: Key::Char(c), modifiers: MOD_NONE };
    reveal_with_fuel(spec_resolve, 5);
    assert(spec_resolve(key, spec_global_table(s.bindings)) is None);
    assert(MOD_NONE & 2 == 0 && MOD_NONE & 4 == 0) by (bit_vector);
    assert(spec_key_types(spec_touch(s, now), key));
}

/// Rebuilding the shown rows never changes the list of all rows: with an
/// empty query every row is shown again, otherwise exactly the rows whose
/// name, username or URL contains the lower-cased query, in their order; the
/// selection goes back to the first row of the first page.
pub proof fn lemma_search_keeps_all_rows(s: AppView)
    ensures
        spec_recompute(s).all_entries == s.all_entries,
        s.search_query.len() == 0 ==> spec_recompute(s).entries == s.all_entries,
        s.search_query.len() > 0 ==> spec_recompute(s).entries == s.all_entries.filter(
            |r: EntryRowView| spec_row_matches(r, spec_to_lowercase(s.search_query)),
        ),
        spec_recompute(s).entry_list_selected == 0,
        spec_recompute(s).entry_list_page == 0,
        spec_recompute(s).search_query == s.search_query,
        spec_recompute(s).screen == s.screen,
{
}

/// Leaving a search with Esc shows every entry again.
pub proof fn lemma_leaving_search_restores_all(s: AppView)
    requires
        s.screen == Screen::EntryList,
        s.in_search,
    ensures
        spec_back(s).entries == s.all_entries,
        !spec_back(s).in_search,
        spec_back(s).all_entries == s.all_entries,
{
}

/// Locking forgets the vault, the master password and any password typed
/// into the entry form.
pub proof fn lemma_lock_forgets_secrets(s: AppView)
    ensures
        spec_lock_vault(s).vault is None,
        spec_lock_vault(s).master_password is None,
        spec_lock_vault(s).form_fields.password.len() == 0,
        spec_lock_vault(s).form_fields.password_confirm.len() == 0,
        spec_lock_vault(s).locked,
        spec_lock_vault(s).screen == Screen::Locked,
{
}

/// An idle session locks itself once the timeout has passed (timeouts of zero
/// never lock, and nothing locks while a task runs), and not before.
pub proof fn lemma_auto_lock_after_timeout(s: AppView, now: u128)
    requires
        s.pending is None,
        !s.locked,
        s.auto_lock_seconds > 0,
    ensures
        spec_elapsed(now, s.last_activity) >= s.auto_lock_seconds * 1_000_000_000 ==> spec_auto_lock(
            s,
            now,
        ) == spec_lock_vault(s),
        spec_elapsed(now, s.last_activity) < s.auto_lock_seconds * 1_000_000_000 ==> spec_auto_lock(
            s,
            now,
        ) == s,
{
}

/// Tab then Shift+Tab returns to the same field.
pub proof fn lemma_tab_round_trip(s: AppView)
    requires
        (s.screen == Screen::EntryForm && s.form_field_idx < 6) || (s.screen == Screen::NewVault
            && s.new_vault_field_idx < 3),
    ensures
        spec_tab_prev(spec_tab_next(s)) == s,
{
}

/// Opening help and closing it again returns to the same screen.
pub proof fn lemma_help_round_trip(s: AppView)
    requires
        s.screen != Screen::Help,
    ensures
        spec_help(spec_help(s)).screen == s.screen,
{
}

/// The selected row is within the shown rows (or the first row of an empty
/// list).
pub open spec fn spec_selection_ok(s: AppView) -> bool {
    &&& s.entries.len() == 0 ==> s.entry_list_selected == 0
    &&& s.entries.len() > 0 ==> s.entry_list_selected < s.entries.len()
}

/// Moving through the entry list keeps the selection within the list, and so
/// does rebuilding the shown rows.
pub proof fn lemma_selection_stays_in_list(s: AppView)
    requires
        s.screen == Screen::EntryList,
        spec_selection_ok(s),
    ensures
        spec_selection_ok(spec_up(s)),
        spec_selection_ok(spec_down(s)),
        spec_selection_ok(spec_page_up(s)),
        spec_selection_ok(spec_page_down(s)),
        spec_selection_ok(spec_home(s)),
        spec_selection_ok(spec_end(s)),
        spec_selection_ok(spec_recompute(s)),
{
}

/// A status notice stays for its lifetime and is gone afterwards.
pub proof fn lemma_status_expires(s: AppView, now: u128)
    requires
        s.status_message matches Some(n) && now >= n.at,
    ensures
        now - s.status_message.unwrap().at >= STATUS_LIFETIME_NANOS ==> spec_expire_status(
            s,
            now,
        ).status_message is None,
        now - s.status_message.unwrap().at < STATUS_LIFETIME_NANOS ==> spec_expire_status(
            s,
            now,
        ).status_message == s.status_message,
{
}

/// A successful unlock opens the entry list on all entries of the vault that
/// was read (when no search is pending), unlocked.
pub proof fn lemma_unlock_shows_all_entries(
    s: AppView,
    path: Seq<char>,
    password: Seq<char>,
    v: VaultView,
    now: u128,
)
    requires
        s.pending == Some(TaskKind::Unlock),
        s.search_query.len() == 0,
    ensures
        ({
            let t = spec_finish_task(
                s,
                TaskResultView::Unlock { path, password, result: Ok(v) },
                now,
            ).0;
            &&& t.screen == Screen::EntryList
            &&& !t.locked
            &&& t.pending is None
            &&& t.vault == Some(v)
            &&& t.master_password == Some(password)
            &&& t.entries == spec_vault_rows(Some(v))
        }),
{
}

/// A password shown on the generate screen satisfies the screen's policy.
pub proof fn lemma_generated_password_is_valid(s: AppView, now: u128, t: AppView)
    requires
        spec_generate_step(s, now, t),
        t.gen_result != s.gen_result,
    ensures
        t.gen_result matches Some(p) && spec_valid_password(spec_policy_of(s.gen_policy), p),
{
}

/// Copying on the detail screen hands the clipboard exactly the asked field
/// of the entry shown (the vault's entry with the id of the row being
/// viewed): its password, its username or its URL, each with its own
/// message; an entry without that field gives nothing to copy.
pub proof fn lemma_copy_takes_that_field(s: AppView, now: u128, i: usize, v: VaultView, e: EntryView)
    requires
        s.screen == Screen::EntryDetail,
        s.detail_entry_idx == Some(i),
        i < s.entries.len(),
        s.vault == Some(v),
        spec_find(v.entries, s.entries[i as int].id) == Some(e),
    ensures
        spec_copy(s, CopyField::Password, now).1 == Some(
            EffectView::CopyToClipboard {
                text: e.password,
                ok_message: "Password copied to clipboard (15s)"@,
            },
        ),
        e.username matches Some(u) ==> spec_copy(s, CopyField::Username, now).1 == Some(
            EffectView::CopyToClipboard {
                text: u,
                ok_message: "Username copied to clipboard (15s)"@,
            },
        ),
        e.username is None ==> spec_copy(s, CopyField::Username, now).1 is None,
        e.url matches Some(u) ==> spec_copy(s, CopyField::Url, now).1 == Some(
            EffectView::CopyToClipboard { text: u, ok_message: "URL copied to clipboard (15s)"@ },
        ),
        e.url is None ==> spec_copy(s, CopyField::Url, now).1 is None,
{
}

/// With the default keys, `l` on the detail screen copies the URL of the
/// entry shown, and nothing when it has none; it never quits.
pub proof fn lemma_l_copies_the_url(
    s: AppView,
    now: u128,
    i: usize,
    v: VaultView,
    e: EntryView,
    t: AppView,
    sig: AppSignal,
    eff: Option<EffectView>,
)
    requires
        s.bindings == spec_default_bindings(),
        s.pending is None,
        s.screen == Screen::EntryDetail,
        s.detail_entry_idx == Some(i),
        i < s.entries.len(),
        s.vault == Some(v),
        spec_find(v.entries, s.entries[i as int].id) == Some(e),
        spec_key_step(s, KeyPress { code: Key::Char('l'), modifiers: MOD_NONE }, now, t, sig, eff),
    ensures
        sig == AppSignal::Continue,
        e.url matches Some(u) ==> eff == Some(
            EffectView::CopyToClipboard { text: u, ok_message: "URL copied to clipboard (15s)"@ },
        ),
        e.url is None ==> eff is None,
{
    let s1 = spec_touch(s, now);
    lemma_default_l_is_copy_url(s1.bindings);
    assert(spec_detail_entry(s1) == Some(e));
}

/// Rows that do not match a key are passed over when resolving it.
proof fn lemma_resolve_skips(key: KeyPress, t: Seq<(Action, KeyBinding)>, k: int)
    requires
        0 <= k <= t.len(),
        forall|j: int| 0 <= j < k ==> !spec_matches(#[trigger] t[j].1, key),
    ensures
        spec_resolve(key, t) == spec_resolve(key, t.subrange(k, t.len() as int)),
    decreases k,
{
    if k > 0 {
        assert(!spec_matches(t[0].1, key));
        let d = t.drop_first();
        assert forall|j: int| 0 <= j < k - 1 implies !spec_matches(#[trigger] d[j].1, key) by {
            assert(d[j] == t[j + 1]);
        }
        lemma_resolve_skips(key, d, k - 1);
        assert(d.subrange(k - 1, d.len() as int) =~= t.subrange(k, t.len() as int));
    } else {
        assert(t.subrange(0, t.len() as int) =~= t);
    }
}

/// With the default keys, `l` is no global key and is bound to copying the
/// URL.
proof fn lemma_default_l_is_copy_url(b: KeyBindings)
    requires
        b == spec_default_bindings(),
    ensures
        spec_resolve(KeyPress { code: Key::Char('l'), modifiers: MOD_NONE }, spec_global_table(b))
            is None,
        spec_resolve(KeyPress { code: Key::Char('l'), modifiers: MOD_NONE }, spec_bound_table(b))
            == Some(Action::CopyUrl),
{
    let key = KeyPress { code: Key::Char('l'), modifiers: MOD_NONE };
    reveal_with_fuel(spec_resolve, 5);
    assert(spec_resolve(key, spec_global_table(b)) is None);
    let t = spec_bound_table(b);
    assert(forall|j: int| 0 <= j < 20 ==> !spec_matches(#[trigger] t[j].1, key));
    lemma_resolve_skips(key, t, 20);
    let rest = t.subrange(20, t.len() as int);
    assert(rest[0] == (Action::CopyUrl, b.copy_url));
}

} // verus!
