//! The decrypted vault: a schema version, a creation time and its entries.
use super::clock::now_unix_nanos;
use super::entry::{spec_opt_view, Entry, EntryView};
use crate::text::{
    contains, eq_ignore_ascii_case, spec_contains, spec_eq_ignore_ascii_case, spec_occurs_at,
    spec_to_lowercase, spec_trim, to_lowercase, trim,
};
use crate::{CoreError, CoreResult};
use vstd::prelude::*;

verus! {

broadcast use vstd::seq_lib::group_filter_ensures;

/// The schema version written by this build.
pub const CURRENT_SCHEMA_VERSION: u32 = 1;

/// The decrypted content of a vault file.
#[derive(Clone)]
pub struct Vault {
    version: u32,
    created_at: i128,
    entries: Vec<Entry>,
}

/// The abstract content of a [`Vault`].
pub struct VaultView {
    pub version: u32,
    pub created_at: i128,
    pub entries: Seq<EntryView>,
}

/// The views of a sequence of entries.
pub open spec fn spec_entry_views(s: Seq<Entry>) -> Seq<EntryView> {
    s.map_values(|e: Entry| e@)
}

/// The views of a sequence of borrowed entries.
pub open spec fn spec_ref_views(s: Seq<&Entry>) -> Seq<EntryView> {
    s.map_values(|e: &Entry| e@)
}

impl View for Vault {
    type V = VaultView;

    closed spec fn view(&self) -> VaultView {
        VaultView {
            version: self.version,
            created_at: self.created_at,
            entries: spec_entry_views(self.entries@),
        }
    }
}

/// The normalized form of a search query: trimmed, then lower-cased.
pub open spec fn spec_search_query(query: Seq<char>) -> Seq<char> {
    spec_to_lowercase(spec_trim(query))
}

/// An optional field matches when present and its lower-cased text contains `q`.
pub open spec fn spec_field_matches(field: Option<Seq<char>>, q: Seq<char>) -> bool {
    match field {
        Some(f) => spec_contains(spec_to_lowercase(f), q),
        None => false,
    }
}

/// An entry matches a normalized query through its name, username, URL or
/// notes. The password is not consulted.
pub open spec fn spec_entry_matches(e: EntryView, q: Seq<char>) -> bool {
    ||| spec_contains(spec_to_lowercase(e.name), q)
    ||| spec_field_matches(e.username, q)
    ||| spec_field_matches(e.url, q)
    ||| spec_field_matches(e.notes, q)
}

/// `i` is the position of the first entry whose id is `id`.
pub open spec fn spec_first_with_id(entries: Seq<EntryView>, id: u128, i: int) -> bool {
    &&& 0 <= i < entries.len()
    &&& entries[i].id == id
    &&& forall|j: int| 0 <= j < i ==> #[trigger] entries[j].id != id
}

/// Some entry has id `id`.
pub open spec fn spec_has_id(entries: Seq<EntryView>, id: u128) -> bool {
    exists|i: int| 0 <= i < entries.len() && #[trigger] entries[i].id == id
}

/// The first entry with id `id`, if any.
pub open spec fn spec_find(entries: Seq<EntryView>, id: u128) -> Option<EntryView> {
    if spec_has_id(entries, id) {
        Some(entries[choose|i: int| spec_first_with_id(entries, id, i)])
    } else {
        None
    }
}

/// The position of the first entry with `id`.
pub open spec fn spec_first_index(es: Seq<EntryView>, id: u128) -> int {
    choose|i: int| spec_first_with_id(es, id, i)
}

/// There is one first position of an id.
pub proof fn lemma_first_unique(entries: Seq<EntryView>, id: u128, i: int, j: int)
    requires
        spec_first_with_id(entries, id, i),
        spec_first_with_id(entries, id, j),
    ensures
        i == j,
{
    if i < j {
        assert(entries[i].id != id);
    } else if j < i {
        assert(entries[j].id != id);
    }
}

impl Vault {
    /// An empty vault of the current schema, created now.
    pub fn new() -> (v: Vault)
        ensures
            v@.version == CURRENT_SCHEMA_VERSION,
            v@.entries == Seq::<EntryView>::empty(),
    {
        let v = Vault {
            version: CURRENT_SCHEMA_VERSION,
            created_at: now_unix_nanos(),
            entries: Vec::new(),
        };
        assert(v@.entries =~= Seq::<EntryView>::empty());
        v
    }

    /// Rebuilds a vault from stored fields, as read back from a vault file.
    pub fn from_parts(version: u32, created_at: i128, entries: Vec<Entry>) -> (v: Vault)
        ensures
            v@.version == version,
            v@.created_at == created_at,
            v@.entries == spec_entry_views(entries@),
    {
        Vault { version, created_at, entries }
    }

    /// A copy of this vault with the same content.
    pub fn duplicate(&self) -> (r: Vault)
        ensures
            r@ == self@,
    {
        let mut entries: Vec<Entry> = Vec::new();
        let n = self.entries.len();
        let mut i: usize = 0;
        while i < n
            invariant
                i <= n,
                n == self.entries@.len(),
                spec_entry_views(entries@) == spec_entry_views(self.entries@).take(i as int),
            decreases n - i,
        {
            let e = self.entries[i].duplicate();
            let ghost before = entries@;
            entries.push(e);
            assert(spec_entry_views(entries@) =~= spec_entry_views(before).push(e@));
            assert(spec_entry_views(entries@) =~= spec_entry_views(self.entries@).take(i + 1));
            i = i + 1;
        }
        assert(spec_entry_views(self.entries@).take(n as int) =~= spec_entry_views(self.entries@));
        Vault { version: self.version, created_at: self.created_at, entries }
    }

    pub fn version(&self) -> (r: u32)
        ensures
            r == self@.version,
    {
        self.version
    }

    pub fn created_at(&self) -> (r: i128)
        ensures
            r == self@.created_at,
    {
        self.created_at
    }

    /// The entries, in insertion order.
    pub fn entries(&self) -> (r: &[Entry])
        ensures
            spec_entry_views(r@) == self@.entries,
    {
        self.entries.as_slice()
    }

    /// Appends an entry.
    pub fn add_entry(&mut self, entry: Entry)
        ensures
            final(self)@ == (VaultView { entries: old(self)@.entries.push(entry@), ..old(self)@ }),
    {
        self.entries.push(entry);
        assert(spec_entry_views(self.entries@) =~= spec_entry_views(old(self).entries@).push(
            entry@,
        ));
    }

    /// The entries whose name equals `name` up to ASCII case, in order.
    pub fn find_by_name(&self, name: &str) -> (r: Vec<&Entry>)
        ensures
            spec_ref_views(r@) == self@.entries.filter(
                |e: EntryView| spec_eq_ignore_ascii_case(e.name, name@),
            ),
    {
        let ghost pred = |e: EntryView| spec_eq_ignore_ascii_case(e.name, name@);
        let ghost all = self@.entries;
        let mut r: Vec<&Entry> = Vec::new();
        let n = self.entries.len();
        let mut i: usize = 0;
        while i < n
            invariant
                i <= n,
                n == self.entries@.len(),
                all == self@.entries,
                all == spec_entry_views(self.entries@),
                pred == (|e: EntryView| spec_eq_ignore_ascii_case(e.name, name@)),
                spec_ref_views(r@) == all.take(i as int).filter(pred),
            decreases n - i,
        {
            let e = &self.entries[i];
            let m = eq_ignore_ascii_case(e.name(), name);
            proof {
                reveal_with_fuel(Seq::<_>::filter, 1);
                assert(all.take(i + 1).drop_last() =~= all.take(i as int));
                assert(all.take(i + 1).last() == e@);
            }
            if m {
                r.push(e);
            }
            assert(spec_ref_views(r@) =~= all.take(i + 1).filter(pred));
            i = i + 1;
        }
        assert(all.take(n as int) =~= all);
        r
    }

    /// Case-insensitive substring search across name, username, URL and
    /// notes, after trimming the query. Never matches against passwords.
    pub fn search(&self, query: &str) -> (r: Vec<&Entry>)
        ensures
            spec_ref_views(r@) == self@.entries.filter(
                |e: EntryView| spec_entry_matches(e, spec_search_query(query@)),
            ),
            spec_trim(query@).len() == 0 ==> spec_ref_views(r@) == self@.entries,
    {
        let trimmed = trim(query);
        let q = to_lowercase(trimmed.as_str());
        let ghost pred = |e: EntryView| spec_entry_matches(e, spec_search_query(query@));
        let ghost all = self@.entries;
        let mut r: Vec<&Entry> = Vec::new();
        let n = self.entries.len();
        let mut i: usize = 0;
        while i < n
            invariant
                i <= n,
                n == self.entries@.len(),
                all == self@.entries,
                all == spec_entry_views(self.entries@),
                q@ == spec_search_query(query@),
                pred == (|e: EntryView| spec_entry_matches(e, spec_search_query(query@))),
                spec_ref_views(r@) == all.take(i as int).filter(pred),
                spec_trim(query@).len() == 0 ==> q@.len() == 0 && spec_ref_views(r@) == all.take(
                    i as int,
                ),
            decreases n - i,
        {
            let e = &self.entries[i];
            let m = entry_matches(e, q.as_str());
            proof {
                if spec_trim(query@).len() == 0 {
                    let hay = spec_to_lowercase(e@.name);
                    assert(hay.subrange(0, 0) =~= q@);
                    assert(spec_occurs_at(hay, q@, 0));
                }
                reveal_with_fuel(Seq::<_>::filter, 1);
                assert(all.take(i + 1).drop_last() =~= all.take(i as int));
                assert(all.take(i + 1).last() == e@);
            }
            if m {
                r.push(e);
            }
            assert(spec_ref_views(r@) =~= all.take(i + 1).filter(pred));
            proof {
                if spec_trim(query@).len() == 0 {
                    assert(spec_ref_views(r@) =~= all.take(i + 1));
                }
            }
            i = i + 1;
        }
        assert(all.take(n as int) =~= all);
        r
    }

    /// Position of the first entry with this id, if any.
    fn position_of(&self, id: u128) -> (r: Option<usize>)
        ensures
            r matches Some(i) ==> spec_first_with_id(self@.entries, id, i as int),
            r is None ==> !spec_has_id(self@.entries, id),
    {
        let n = self.entries.len();
        let mut i: usize = 0;
        while i < n
            invariant
                i <= n,
                n == self.entries@.len(),
                forall|j: int| 0 <= j < i ==> #[trigger] self@.entries[j].id != id,
            decreases n - i,
        {
            if self.entries[i].id() == id {
                return Some(i);
            }
            i = i + 1;
        }
        None
    }

    /// The first entry with this id, if any.
    pub fn find_by_id(&self, id: u128) -> (r: Option<&Entry>)
        ensures
            r is None <==> !spec_has_id(self@.entries, id),
            r matches Some(e) ==> exists|i: int|
                spec_first_with_id(self@.entries, id, i) && e@ == self@.entries[i],
            spec_opt_view(r) == spec_find(self@.entries, id),
    {
        match self.position_of(id) {
            Some(i) => {
                proof {
                    let j = choose|j: int| spec_first_with_id(self@.entries, id, j);
                    lemma_first_unique(self@.entries, id, i as int, j);
                }
                Some(&self.entries[i])
            },
            None => None,
        }
    }

    /// The first entry with this id, for changing it in place.
    pub fn find_by_id_mut(&mut self, id: u128) -> (r: Option<&mut Entry>)
        ensures
            r is None <==> !spec_has_id(old(self)@.entries, id),
            r is None ==> *final(self) == *old(self),
            r matches Some(e) ==> exists|i: int|
                spec_first_with_id(old(self)@.entries, id, i) && (*e)@ == old(self)@.entries[i]
                    && final(self)@ == (VaultView {
                    entries: old(self)@.entries.update(i, (*final(e))@),
                    ..old(self)@
                }),
    {
        match self.position_of(id) {
            Some(i) => {
                proof {
                    lemma_views_update(self.entries@, i as int);
                }
                Some(&mut self.entries[i])
            },
            None => None,
        }
    }

    /// Removes the first entry with this id and returns it; `EntryNotFound`
    /// (with the vault unchanged) when no entry has it.
    pub fn remove_by_id(&mut self, id: u128) -> (r: CoreResult<Entry>)
        ensures
            r is Err <==> !spec_has_id(old(self)@.entries, id),
            r matches Err(e) ==> e is EntryNotFound && *final(self) == *old(self),
            r matches Ok(e) ==> exists|i: int|
                spec_first_with_id(old(self)@.entries, id, i) && e@ == old(self)@.entries[i]
                    && final(self)@ == (VaultView {
                    entries: old(self)@.entries.remove(i),
                    ..old(self)@
                }),
    {
        match self.position_of(id) {
            Some(i) => {
                let e = self.entries.remove(i);
                assert(spec_entry_views(self.entries@) =~= spec_entry_views(
                    old(self).entries@,
                ).remove(i as int));
                Ok(e)
            },
            None => Err(CoreError::EntryNotFound),
        }
    }
}

impl Default for Vault {
    /// An empty vault, as [`Vault::new`] makes it.
    fn default() -> (v: Self)
        ensures
            v@.version == CURRENT_SCHEMA_VERSION,
            v@.entries == Seq::<EntryView>::empty(),
    {
        Vault::new()
    }
}

/// Replacing one entry replaces its view.
proof fn lemma_views_update(s: Seq<Entry>, i: int)
    requires
        0 <= i < s.len(),
    ensures
        forall|x: Entry| #[trigger] spec_entry_views(s.update(i, x)) == spec_entry_views(s).update(i, x@),
{
    assert forall|x: Entry| #[trigger] spec_entry_views(s.update(i, x)) == spec_entry_views(s).update(i, x@) by {
        assert(spec_entry_views(s.update(i, x)) =~= spec_entry_views(s).update(i, x@));
    }
}

/// Whether one optional field contains the normalized query.
fn field_matches(field: Option<&str>, q: &str) -> (b: bool)
    ensures
        b == spec_field_matches(super::entry::spec_opt_view(field), q@),
{
    match field {
        Some(f) => {
            let lower = to_lowercase(f);
            contains(lower.as_str(), q)
        },
        None => false,
    }
}

/// Whether an entry matches the normalized query `q`.
fn entry_matches(e: &Entry, q: &str) -> (b: bool)
    ensures
        b == spec_entry_matches(e@, q@),
{
    let name = to_lowercase(e.name());
    if contains(name.as_str(), q) {
        return true;
    }
    if field_matches(e.username(), q) {
        return true;
    }
    if field_matches(e.url(), q) {
        return true;
    }
    let notes = match e.notes() {
        Some(n) => Some(n.as_str()),
        None => None,
    };
    field_matches(notes, q)
}

/// Whether an entry matches a query does not depend on its password: search
/// never looks at passwords.
pub proof fn lemma_search_ignores_password(e: EntryView, password: Seq<char>, q: Seq<char>)
    ensures
        spec_entry_matches(EntryView { password, ..e }, q) == spec_entry_matches(e, q),
{
}

} // verus!
