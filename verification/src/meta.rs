//! Where the non-sensitive metadata of a vault is kept, and where backups of
//! a vault file go.
use crate::paths::{backups_dir, file_name, join, spec_file_name, spec_join, spec_stem, state_dir, stem};
use crate::text::{chars_of, push_char, to_owned_string};
use crate::CoreResult;
use vstd::prelude::*;
use vstd::string::StringSliceAdditionalSpecFns;

verus! {

/// The BLAKE2s-256 digest of `data`, as the `blake2` crate computes it.
pub uninterp spec fn spec_blake2s256(data: Seq<u8>) -> Seq<u8>;

/// Calls `blake2::Blake2s256::digest`: the 32-byte BLAKE2s-256 digest of
/// `data`, a function of `data` alone.
#[verifier::external_body]
fn blake2s256(data: &[u8]) -> (r: Vec<u8>)
    ensures
        r@ == spec_blake2s256(data@),
        r@.len() == 32,
{
    <blake2::Blake2s256 as blake2::Digest>::digest(data).to_vec()
}

/// The lower-case hexadecimal digit of `d < 16`.
pub open spec fn spec_hex_digit(d: u8) -> char {
    if d < 10 {
        ((d + 48) as u8) as char
    } else {
        ((d + 87) as u8) as char
    }
}

/// Two lower-case hexadecimal digits per byte.
pub open spec fn spec_hex(b: Seq<u8>) -> Seq<char>
    decreases b.len(),
{
    if b.len() == 0 {
        Seq::empty()
    } else {
        spec_hex(b.drop_last()).push(spec_hex_digit(b.last() / 16)).push(
            spec_hex_digit(b.last() % 16),
        )
    }
}

fn hex_digit(d: u8) -> (c: char)
    requires
        d < 16,
    ensures
        c == spec_hex_digit(d),
{
    if d < 10 {
        (d + 48) as char
    } else {
        (d + 87) as char
    }
}

/// The first `n` bytes of `b` in lower-case hexadecimal.
fn hex_prefix(b: &Vec<u8>, n: usize) -> (r: String)
    requires
        n <= b@.len(),
    ensures
        r@ == spec_hex(b@.take(n as int)),
{
    let mut r = String::new();
    let mut i: usize = 0;
    while i < n
        invariant
            i <= n <= b@.len(),
            r@ == spec_hex(b@.take(i as int)),
        decreases n - i,
    {
        let byte = b[i];
        push_char(&mut r, hex_digit(byte / 16));
        push_char(&mut r, hex_digit(byte % 16));
        proof {
            assert(b@.take(i + 1).drop_last() =~= b@.take(i as int));
            assert(b@.take(i + 1).last() == byte);
        }
        i = i + 1;
    }
    r
}

/// The metadata key of a vault: the first 16 bytes of the BLAKE2s-256 digest
/// of its absolute path, in hexadecimal. Two vaults with the same file name in
/// different directories get different keys.
pub open spec fn spec_meta_key(abs_path: Seq<u8>) -> Seq<char> {
    spec_hex(spec_blake2s256(abs_path).take(16))
}

/// The metadata key of the vault at `abs_path` (an absolute path).
pub fn meta_key(abs_path: &str) -> (r: String)
    ensures
        r@ == spec_meta_key(abs_path.spec_bytes()),
        r@.len() == 32,
{
    let digest = blake2s256(abs_path.as_bytes());
    let r = hex_prefix(&digest, 16);
    proof {
        lemma_hex_len(digest@.take(16));
    }
    r
}

proof fn lemma_hex_len(b: Seq<u8>)
    ensures
        spec_hex(b).len() == 2 * b.len(),
    decreases b.len(),
{
    if b.len() > 0 {
        lemma_hex_len(b.drop_last());
    }
}

/// `<state>/meta/<key>.json` for a state directory that was found: the
/// metadata file of the vault at `abs_path`; the lookup error unchanged
/// otherwise.
pub fn meta_path_under(state: CoreResult<String>, abs_path: &str) -> (r: CoreResult<String>)
    ensures
        state matches Ok(d) ==> (r matches Ok(p) && p@ == spec_join(
            spec_join(d@, "meta"@),
            spec_meta_key(abs_path.spec_bytes()) + ".json"@,
        )),
        state matches Err(e) ==> (r matches Err(e2) && e2 == e),
{
    let dir = match state {
        Ok(d) => d,
        Err(e) => return Err(e),
    };
    let meta_dir = join(dir.as_str(), "meta");
    let mut file = meta_key(abs_path);
    file.append(".json");
    Ok(join(meta_dir.as_str(), file.as_str()))
}

/// `<state dir>/meta/<key>.json`: the metadata file of the vault at
/// `abs_path`.
pub fn meta_path(abs_path: &str) -> (r: CoreResult<String>)
    ensures
        r matches Ok(p) ==> exists|base: Seq<char>|
            p@ == spec_join(
                spec_join(spec_join(base, "cista"@), "meta"@),
                spec_meta_key(abs_path.spec_bytes()) + ".json"@,
            ),
        r matches Err(e) ==> e is Io,
{
    meta_path_under(state_dir(), abs_path)
}

/// A time stamp made safe for file names: every `:` becomes `-`.
pub open spec fn spec_dashed(t: Seq<char>) -> Seq<char> {
    t.map_values(|c: char| if c == ':' {
        '-'
    } else {
        c
    })
}

/// The file name of a backup taken at `timestamp` (RFC 3339), or at an
/// unknown time.
pub fn backup_file_name(timestamp: Option<&str>) -> (r: String)
    ensures
        r@ == match timestamp {
            Some(t) => spec_dashed(t@) + ".cista.bak"@,
            None => "unknown"@ + ".cista.bak"@,
        },
{
    let mut r = String::new();
    match timestamp {
        Some(t) => {
            let v = chars_of(t);
            let mut i: usize = 0;
            while i < v.len()
                invariant
                    i <= v@.len(),
                    v@ == t@,
                    r@ == spec_dashed(v@.take(i as int)),
                decreases v@.len() - i,
            {
                let c = if v[i] == ':' {
                    '-'
                } else {
                    v[i]
                };
                push_char(&mut r, c);
                assert(spec_dashed(v@.take(i + 1)) =~= spec_dashed(v@.take(i as int)).push(c));
                i = i + 1;
            }
            assert(v@.take(v@.len() as int) =~= v@);
        },
        None => {
            r = to_owned_string("unknown");
        },
    }
    r.append(".cista.bak");
    r
}

/// The folder of backups of a vault: named after its file stem, or `vault`
/// when the path has no file name.
pub open spec fn spec_backup_folder(vault_path: Seq<char>) -> Seq<char> {
    match spec_file_name(vault_path) {
        Some(n) => spec_stem(n),
        None => "vault"@,
    }
}

/// The file name of a backup taken at `timestamp`.
pub open spec fn spec_backup_file_name(timestamp: Option<Seq<char>>) -> Seq<char> {
    match timestamp {
        Some(t) => spec_dashed(t) + ".cista.bak"@,
        None => "unknown"@ + ".cista.bak"@,
    }
}

/// `<backups>/<stem>/<timestamp>.cista.bak` for a backups directory that was
/// found: where the backup of the vault at `vault_path`, taken at
/// `timestamp`, goes; the lookup error unchanged otherwise.
pub fn backup_path_under(backups: CoreResult<String>, vault_path: &str, timestamp: Option<&str>) -> (r:
    CoreResult<String>)
    ensures
        backups matches Ok(d) ==> (r matches Ok(p) && p@ == spec_join(
            spec_join(d@, spec_backup_folder(vault_path@)),
            spec_backup_file_name(spec_opt_str(timestamp)),
        )),
        backups matches Err(e) ==> (r matches Err(e2) && e2 == e),
{
    let folder = match file_name(vault_path) {
        Some(n) => stem(n.as_str()),
        None => to_owned_string("vault"),
    };
    let dir = match backups {
        Ok(d) => d,
        Err(e) => return Err(e),
    };
    let folder_path = join(dir.as_str(), folder.as_str());
    Ok(join(folder_path.as_str(), backup_file_name(timestamp).as_str()))
}

/// The text of an optional string slice.
pub open spec fn spec_opt_str(o: Option<&str>) -> Option<Seq<char>> {
    match o {
        Some(t) => Some(t@),
        None => None,
    }
}

/// `<backups dir>/<stem>/<timestamp>.cista.bak`: where the backup of the
/// vault at `vault_path`, taken at `timestamp`, goes.
pub fn backup_path(vault_path: &str, timestamp: Option<&str>) -> (r: CoreResult<String>)
    ensures
        r matches Ok(p) ==> exists|base: Seq<char>|
            p@ == spec_join(
                spec_join(spec_join(spec_join(base, "cista"@), "backups"@), spec_backup_folder(vault_path@)),
                spec_backup_file_name(spec_opt_str(timestamp)),
            ),
        r matches Err(e) ==> e is Io,
{
    backup_path_under(backups_dir(), vault_path, timestamp)
}

} // verus!
