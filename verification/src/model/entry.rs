//! One credential stored in a vault.
use super::clock::{new_entry_id, now_unix_nanos, spec_is_v4_uuid};
use super::secret_string::SecretString;
use crate::text::{spec_trim, trim};
use crate::{CoreError, CoreResult};
use vstd::prelude::*;

verus! {

/// A stored credential. Timestamps are nanoseconds since the Unix epoch (UTC);
/// the id is a random UUID as a 128-bit integer.
#[derive(Clone)]
pub struct Entry {
    id: u128,
    name: String,
    username: Option<String>,
    password: SecretString,
    url: Option<String>,
    notes: Option<SecretString>,
    created_at: i128,
    updated_at: i128,
}

/// The abstract content of an [`Entry`].
pub struct EntryView {
    pub id: u128,
    pub name: Seq<char>,
    pub username: Option<Seq<char>>,
    pub password: Seq<char>,
    pub url: Option<Seq<char>>,
    pub notes: Option<Seq<char>>,
    pub created_at: i128,
    pub updated_at: i128,
}

/// The text of an optional string.
pub open spec fn spec_opt_view<T: View>(o: Option<T>) -> Option<T::V> {
    match o {
        Some(s) => Some(s@),
        None => None,
    }
}

impl View for Entry {
    type V = EntryView;

    closed spec fn view(&self) -> EntryView {
        EntryView {
            id: self.id,
            name: self.name@,
            username: spec_opt_view(self.username),
            password: self.password@,
            url: spec_opt_view(self.url),
            notes: spec_opt_view(self.notes),
            created_at: self.created_at,
            updated_at: self.updated_at,
        }
    }
}

/// Borrows the text of an optional string.
fn opt_as_str(o: &Option<String>) -> (r: Option<&str>)
    ensures
        spec_opt_view(r) == spec_opt_view(*o),
{
    match o {
        Some(s) => Some(s.as_str()),
        None => None,
    }
}

impl Entry {
    /// Creates an entry with a fresh random id; both timestamps are the
    /// current time. The name is stored trimmed and must not be empty.
    pub fn new(
        name: String,
        username: Option<String>,
        password: SecretString,
        url: Option<String>,
        notes: Option<String>,
    ) -> (r: CoreResult<Entry>)
        ensures
            r is Err <==> spec_trim(name@).len() == 0,
            r matches Err(e) ==> e is EmptyName,
            r matches Ok(e) ==> {
                &&& e@.name == spec_trim(name@)
                &&& e@.username == spec_opt_view(username)
                &&& e@.password == password@
                &&& e@.url == spec_opt_view(url)
                &&& e@.notes == spec_opt_view(notes)
                &&& e@.created_at == e@.updated_at
                &&& spec_is_v4_uuid(e@.id)
            },
    {
        let trimmed = trim(name.as_str());
        if trimmed.as_str().is_empty() {
            return Err(CoreError::EmptyName);
        }
        let now = now_unix_nanos();
        let notes = match notes {
            Some(n) => Some(SecretString::new(n)),
            None => None,
        };
        Ok(Entry {
            id: new_entry_id(),
            name: trimmed,
            username,
            password,
            url,
            notes,
            created_at: now,
            updated_at: now,
        })
    }

    /// Rebuilds an entry from stored fields, as read back from a vault file.
    pub fn from_parts(
        id: u128,
        name: String,
        username: Option<String>,
        password: SecretString,
        url: Option<String>,
        notes: Option<SecretString>,
        created_at: i128,
        updated_at: i128,
    ) -> (e: Entry)
        ensures
            e@ == (EntryView {
                id,
                name: name@,
                username: spec_opt_view(username),
                password: password@,
                url: spec_opt_view(url),
                notes: spec_opt_view(notes),
                created_at,
                updated_at,
            }),
    {
        Entry { id, name, username, password, url, notes, created_at, updated_at }
    }

    /// An identical copy of this entry.
    pub fn duplicate(&self) -> (r: Entry)
        ensures
            r@ == self@,
    {
        Entry {
            id: self.id,
            name: self.name.clone(),
            username: match &self.username {
                Some(u) => Some(u.clone()),
                None => None,
            },
            password: self.password.duplicate(),
            url: match &self.url {
                Some(u) => Some(u.clone()),
                None => None,
            },
            notes: match &self.notes {
                Some(n) => Some(n.duplicate()),
                None => None,
            },
            created_at: self.created_at,
            updated_at: self.updated_at,
        }
    }

    pub fn id(&self) -> (r: u128)
        ensures
            r == self@.id,
    {
        self.id
    }

    pub fn name(&self) -> (r: &str)
        ensures
            r@ == self@.name,
    {
        self.name.as_str()
    }

    pub fn username(&self) -> (r: Option<&str>)
        ensures
            spec_opt_view(r) == self@.username,
    {
        opt_as_str(&self.username)
    }

    pub fn url(&self) -> (r: Option<&str>)
        ensures
            spec_opt_view(r) == self@.url,
    {
        opt_as_str(&self.url)
    }

    pub fn created_at(&self) -> (r: i128)
        ensures
            r == self@.created_at,
    {
        self.created_at
    }

    pub fn updated_at(&self) -> (r: i128)
        ensures
            r == self@.updated_at,
    {
        self.updated_at
    }

    pub fn password(&self) -> (r: &SecretString)
        ensures
            r@ == self@.password,
    {
        &self.password
    }

    pub fn notes(&self) -> (r: Option<&SecretString>)
        ensures
            spec_opt_view(r) == self@.notes,
    {
        match &self.notes {
            Some(n) => Some(n),
            None => None,
        }
    }

    /// Renames the entry (trimmed). An empty name is refused and leaves the
    /// entry unchanged.
    pub fn rename(&mut self, new_name: String) -> (r: CoreResult<()>)
        ensures
            r is Err <==> spec_trim(new_name@).len() == 0,
            r matches Err(e) ==> e is EmptyName && *final(self) == *old(self),
            r is Ok ==> final(self)@ == (EntryView {
                name: spec_trim(new_name@),
                updated_at: final(self)@.updated_at,
                ..old(self)@
            }),
    {
        let trimmed = trim(new_name.as_str());
        if trimmed.as_str().is_empty() {
            return Err(CoreError::EmptyName);
        }
        self.name = trimmed;
        self.touch();
        Ok(())
    }

    pub fn set_username(&mut self, username: Option<String>)
        ensures
            final(self)@ == (EntryView {
                username: spec_opt_view(username),
                updated_at: final(self)@.updated_at,
                ..old(self)@
            }),
    {
        self.username = username;
        self.touch();
    }

    pub fn set_password(&mut self, password: SecretString)
        ensures
            final(self)@ == (EntryView {
                password: password@,
                updated_at: final(self)@.updated_at,
                ..old(self)@
            }),
    {
        self.password = password;
        self.touch();
    }

    pub fn set_url(&mut self, url: Option<String>)
        ensures
            final(self)@ == (EntryView {
                url: spec_opt_view(url),
                updated_at: final(self)@.updated_at,
                ..old(self)@
            }),
    {
        self.url = url;
        self.touch();
    }

    pub fn set_notes(&mut self, notes: Option<String>)
        ensures
            final(self)@ == (EntryView {
                notes: spec_opt_view(notes),
                updated_at: final(self)@.updated_at,
                ..old(self)@
            }),
    {
        self.notes = match notes {
            Some(n) => Some(SecretString::new(n)),
            None => None,
        };
        self.touch();
    }

    /// Records the current time as the last modification.
    fn touch(&mut self)
        ensures
            final(self)@ == (EntryView { updated_at: final(self)@.updated_at, ..old(self)@ }),
    {
        self.updated_at = now_unix_nanos();
    }
}

} // verus!
