//! The in-memory vault: entries, secrets and the vault itself.
mod clock;
mod entry;
mod secret_string;
mod vault;

pub use clock::{new_entry_id, now_unix_nanos, spec_is_v4_uuid};
pub use entry::{spec_opt_view, Entry, EntryView};
pub use secret_string::{spec_secret_text, SecretString};
pub use vault::{
    lemma_first_unique, spec_entry_matches, spec_entry_views, spec_ref_views, spec_first_index, spec_field_matches, spec_find, spec_first_with_id, spec_has_id,
    spec_search_query, Vault, VaultView, CURRENT_SCHEMA_VERSION,
};
