//! Vault path rules of the command line, and the `get --field` selector.
use crate::paths::{
    extension, file_name, is_bare_name, join, lemma_file_name_of_join, lemma_split_plain,
    spec_component_kinds, spec_extension, spec_file_name, spec_is_bare_name, spec_join,
    spec_last_dot, spec_last_kept, spec_piece_kinds, spec_split_slash, vaults_dir,
};
use crate::text::{eq_ignore_ascii_case, spec_eq_ignore_ascii_case, to_owned_string};
use crate::{CoreError, CoreResult};
use vstd::prelude::*;

verus! {

broadcast use vstd::string::group_string_axioms;

/// A single field that `get --field` can print.
#[derive(Debug, Clone, Copy, PartialEq, Eq)]
pub enum FieldSelector {
    Password,
    Username,
    Url,
    Notes,
}

/// Why a vault path was refused.
#[derive(Debug)]
pub enum VaultPathError {
    /// The path (or the bare name given) does not end with `.cista`.
    MissingCistaExtension(String),
    /// The default vaults directory could not be determined.
    NoVaultsDir(CoreError),
}

impl VaultPathError {
    /// The message shown to the user.
    pub fn message(&self) -> (r: String)
        ensures
            self matches VaultPathError::MissingCistaExtension(m) ==> r@ == m@,
    {
        match self {
            VaultPathError::MissingCistaExtension(m) => m.clone(),
            VaultPathError::NoVaultsDir(e) => e.message(),
        }
    }
}

/// The file name of `path` has the extension `cista`, in any ASCII case.
pub open spec fn spec_has_cista_ext(path: Seq<char>) -> bool {
    match spec_file_name(path) {
        Some(name) => match spec_extension(name) {
            Some(ext) => spec_eq_ignore_ascii_case(ext, "cista"@),
            None => false,
        },
        None => false,
    }
}

/// The extension of `name` is `cista`, in any ASCII case.
pub open spec fn spec_name_is_cista(name: Seq<char>) -> bool {
    match spec_extension(name) {
        Some(ext) => spec_eq_ignore_ascii_case(ext, "cista"@),
        None => false,
    }
}

/// The file name a bare path resolves to inside the vaults directory: the
/// name itself when it ends with `.cista`, the name with `.cista` appended
/// when it has no extension.
pub open spec fn spec_resolved_name(name: Seq<char>) -> Seq<char> {
    if spec_extension(name) is None {
        name + ".cista"@
    } else {
        name
    }
}

/// `path` is `name` inside a vaults directory, `<base>/cista/vaults`.
pub open spec fn spec_in_vaults_dir(path: Seq<char>, name: Seq<char>) -> bool {
    exists|base: Seq<char>| path == #[trigger] spec_join(spec_join(spec_join(base, "cista"@), "vaults"@), name)
}

/// Whether an optional extension is `cista`, in any ASCII case.
fn is_cista_ext(ext: &Option<String>) -> (b: bool)
    ensures
        b == match crate::model::spec_opt_view(*ext) {
            Some(e) => spec_eq_ignore_ascii_case(e, "cista"@),
            None => false,
        },
{
    match ext {
        Some(e) => eq_ignore_ascii_case(e.as_str(), "cista"),
        None => false,
    }
}

/// `vault path '<path>' must end with the .cista extension`
pub open spec fn spec_extension_message(path: Seq<char>) -> Seq<char> {
    "vault path '"@ + path + "' must end with the .cista extension"@
}

/// Builds the message for a path without the `.cista` extension.
fn extension_message(path: &str) -> (m: String)
    ensures
        m@ == spec_extension_message(path@),
{
    let mut m = to_owned_string("vault path '");
    m.append(path);
    m.append("' must end with the .cista extension");
    m
}

/// Returns an error unless `path` ends with the `.cista` extension,
/// so vaults are always given an identifiable file name.
pub fn validate_vault_path(path: &str) -> (r: Result<(), VaultPathError>)
    ensures
        r is Ok <==> spec_has_cista_ext(path@),
        r matches Err(e) ==> e matches VaultPathError::MissingCistaExtension(m) && m@
            == spec_extension_message(path@),
{
    let name = file_name(path);
    let ok = match name {
        Some(n) => {
            let ext = extension(n.as_str());
            is_cista_ext(&ext)
        },
        None => false,
    };
    if !ok {
        return Err(VaultPathError::MissingCistaExtension(extension_message(path)));
    }
    Ok(())
}

/// The file name of a bare path (empty when it has none).
pub open spec fn spec_bare_file_name(path: Seq<char>) -> Seq<char> {
    match spec_file_name(path) {
        Some(n) => n,
        None => Seq::<char>::empty(),
    }
}

/// A bare name ends in an extension other than `.cista`.
pub open spec fn spec_wrong_extension(name: Seq<char>) -> bool {
    spec_extension(name) is Some && !spec_name_is_cista(name)
}

/// A bare name is its own file name, and is a plain name.
proof fn lemma_bare_name_is_file_name(path: Seq<char>)
    requires
        spec_is_bare_name(path),
    ensures
        spec_bare_file_name(path) == path,
        path.len() > 0,
        path != seq!['.'],
        path != seq!['.', '.'],
{
    lemma_split_plain(path);
    reveal_with_fuel(spec_piece_kinds, 2);
    reveal_with_fuel(spec_last_kept, 2);
    let pieces = spec_split_slash(path);
    assert(pieces.drop_last() =~= Seq::<Seq<char>>::empty());
    if path.len() > 0 {
        assert(path[0] != '/') by {
            assert(!path.contains('/'));
        }
    }
    if path == seq!['.'] {
        assert(spec_component_kinds(path) =~= seq![false]);
    }
    if path.len() == 0 {
        assert(spec_component_kinds(path) =~= Seq::<bool>::empty());
    }
}

/// The name a bare name resolves to is a plain name ending in `.cista`.
proof fn lemma_resolved_name_is_cista(name: Seq<char>)
    requires
        !name.contains('/'),
        name.len() > 0,
        name != seq!['.'],
        name != seq!['.', '.'],
        !spec_wrong_extension(name),
    ensures
        !spec_resolved_name(name).contains('/'),
        spec_resolved_name(name).len() > 0,
        spec_resolved_name(name) != seq!['.'],
        spec_resolved_name(name) != seq!['.', '.'],
        spec_name_is_cista(spec_resolved_name(name)),
{
    if spec_extension(name) is None {
        reveal_strlit(".cista");
        let rn = name + ".cista"@;
        assert(!rn.contains('/')) by {
            if rn.contains('/') {
                let k = choose|k: int| 0 <= k < rn.len() && rn[k] == '/';
                if k < name.len() {
                    assert(name[k] == '/');
                }
            }
        }
        assert(rn.len() == name.len() + 6);
        reveal_with_fuel(spec_last_dot, 7);
        assert(rn.drop_last() =~= name + seq!['.', 'c', 'i', 's', 't']);
        assert(rn.drop_last().drop_last() =~= name + seq!['.', 'c', 'i', 's']);
        assert(rn.drop_last().drop_last().drop_last() =~= name + seq!['.', 'c', 'i']);
        assert(rn.drop_last().drop_last().drop_last().drop_last() =~= name + seq!['.', 'c']);
        assert(rn.drop_last().drop_last().drop_last().drop_last().drop_last() =~= name + seq!['.']);
        assert(spec_last_dot(rn) == Some(name.len() as int));
        reveal_strlit("cista");
        assert(rn.subrange(name.len() + 1int, rn.len() as int) =~= "cista"@);
        assert(spec_eq_ignore_ascii_case("cista"@, "cista"@));
    }
}

/// Validates a vault path, with `vaults` the result of looking up the vaults
/// directory. Bare names (no directory separators) resolve to
/// `<vaults>/<name>.cista`; paths with a directory are used as-is. Always
/// requires the `.cista` extension. The lookup result is used only for a
/// bare name that can be resolved.
pub fn resolve_vault_path_in(path: &mut String, vaults: CoreResult<String>) -> (r: Result<
    (),
    VaultPathError,
>)
    ensures
        !spec_is_bare_name(old(path)@) ==> {
            &&& final(path)@ == old(path)@
            &&& (r is Ok <==> spec_has_cista_ext(old(path)@))
            &&& (r matches Err(e) ==> e matches VaultPathError::MissingCistaExtension(m) && m@
                == spec_extension_message(old(path)@))
        },
        spec_is_bare_name(old(path)@) && spec_wrong_extension(spec_bare_file_name(old(path)@)) ==> {
            &&& final(path)@ == old(path)@
            &&& r matches Err(e) && e matches VaultPathError::MissingCistaExtension(m) && m@
                == spec_extension_message(spec_bare_file_name(old(path)@))
        },
        spec_is_bare_name(old(path)@) && !spec_wrong_extension(spec_bare_file_name(old(path)@)) ==> {
            match vaults {
                Ok(d) => {
                    &&& final(path)@ == spec_join(
                        d@,
                        spec_resolved_name(spec_bare_file_name(old(path)@)),
                    )
                    &&& r is Ok
                },
                Err(e) => {
                    &&& final(path)@ == old(path)@
                    &&& r matches Err(VaultPathError::NoVaultsDir(e2)) && e2 == e
                },
            }
        },
{
    let bare_name = is_bare_name(path.as_str());
    proof {
        if bare_name {
            let name = spec_bare_file_name(path@);
            lemma_bare_name_is_file_name(path@);
            if !spec_wrong_extension(name) {
                lemma_resolved_name_is_cista(name);
                if vaults is Ok {
                    lemma_file_name_of_join(vaults.unwrap()@, spec_resolved_name(name));
                }
            }
        }
    }
    if bare_name {
        let name = match file_name(path.as_str()) {
            Some(n) => n,
            None => String::new(),
        };
        let ext = extension(name.as_str());
        let ends_with_cista = is_cista_ext(&ext);
        if ends_with_cista {
            let dir = match vaults {
                Ok(d) => d,
                Err(e) => {
                    return Err(VaultPathError::NoVaultsDir(e));
                },
            };
            *path = join(dir.as_str(), name.as_str());
        } else if ext.is_some() {
            return Err(VaultPathError::MissingCistaExtension(extension_message(name.as_str())));
        } else {
            let mut resolved = name;
            resolved.append(".cista");
            let dir = match vaults {
                Ok(d) => d,
                Err(e) => {
                    return Err(VaultPathError::NoVaultsDir(e));
                },
            };
            *path = join(dir.as_str(), resolved.as_str());
        }
    }
    validate_vault_path(path.as_str())
}

/// Validates a vault path. Bare names (no directory separators) resolve to
/// `<data dir>/cista/vaults/<name>.cista`; paths with a directory are used
/// as-is. Always requires the `.cista` extension.
pub fn resolve_vault_path(path: &mut String) -> (r: Result<(), VaultPathError>)
    ensures
        !spec_is_bare_name(old(path)@) ==> {
            &&& final(path)@ == old(path)@
            &&& (r is Ok <==> spec_has_cista_ext(old(path)@))
            &&& (r matches Err(e) ==> e matches VaultPathError::MissingCistaExtension(m) && m@
                == spec_extension_message(old(path)@))
        },
        spec_is_bare_name(old(path)@) && spec_wrong_extension(spec_bare_file_name(old(path)@)) ==> {
            &&& final(path)@ == old(path)@
            &&& r matches Err(e) && e matches VaultPathError::MissingCistaExtension(m) && m@
                == spec_extension_message(spec_bare_file_name(old(path)@))
        },
        spec_is_bare_name(old(path)@) && !spec_wrong_extension(spec_bare_file_name(old(path)@)) ==> {
            ||| (r matches Err(e) && e is NoVaultsDir && final(path)@ == old(path)@)
            ||| {
                &&& spec_in_vaults_dir(
                    final(path)@,
                    spec_resolved_name(spec_bare_file_name(old(path)@)),
                )
                &&& r is Ok
            }
        },
{
    let vaults = vaults_dir();
    proof {
        if vaults is Ok {
            let d = vaults.unwrap();
            let base = choose|b: Seq<char>| d@ == spec_join(spec_join(b, "cista"@), "vaults"@);
            assert(spec_join(d@, spec_resolved_name(spec_bare_file_name(path@))) == spec_join(
                spec_join(spec_join(base, "cista"@), "vaults"@),
                spec_resolved_name(spec_bare_file_name(path@)),
            ));
        }
    }
    resolve_vault_path_in(path, vaults)
}

} // verus!
