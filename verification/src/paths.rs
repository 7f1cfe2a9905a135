//! XDG Base Directory resolution for Cista's on-disk locations, and the few
//! path operations the command line needs. Paths are held as strings.
use crate::text::{chars_of, spec_starts_with, string_from_chars, string_from_range, to_owned_string};
use crate::{CoreError, CoreResult};
use vstd::prelude::*;

verus! {

broadcast use vstd::string::group_string_axioms;

/// `Path::join`: a relative `rel` is appended after a separator (none is
/// added when `base` is empty or already ends with `/`); an absolute `rel`
/// replaces `base`.
pub open spec fn spec_join(base: Seq<char>, rel: Seq<char>) -> Seq<char> {
    if rel.len() > 0 && rel[0] == '/' {
        rel
    } else if base.len() > 0 && base.last() != '/' {
        base + seq!['/'] + rel
    } else {
        base + rel
    }
}

/// Joins `rel` onto `base` as `Path::join` does.
pub fn join(base: &str, rel: &str) -> (r: String)
    ensures
        r@ == spec_join(base@, rel@),
{
    let b = chars_of(base);
    let r = chars_of(rel);
    if r.len() > 0 && r[0] == '/' {
        return to_owned_string(rel);
    }
    let mut out = b.clone();
    if b.len() > 0 && b[b.len() - 1] != '/' {
        out.push('/');
    }
    let mut i: usize = 0;
    let ghost start = out@;
    while i < r.len()
        invariant
            i <= r@.len(),
            out@ == start + r@.take(i as int),
        decreases r@.len() - i,
    {
        out.push(r[i]);
        i = i + 1;
        assert(out@ =~= start + r@.take(i as int));
    }
    assert(r@.take(r@.len() as int) =~= r@);
    proof {
        if b@.len() > 0 && b@.last() != '/' {
            assert(start =~= b@ + seq!['/']);
        } else {
            assert(start =~= b@);
        }
    }
    string_from_chars(&out)
}

/// The pieces of a path between `/` separators, in order; empty pieces
/// (from a leading, repeated or trailing `/`) included.
pub open spec fn spec_split_slash(p: Seq<char>) -> Seq<Seq<char>>
    decreases p.len(),
{
    if p.len() == 0 {
        seq![Seq::<char>::empty()]
    } else {
        let rest = spec_split_slash(p.drop_last());
        if p.last() == '/' {
            rest.push(Seq::<char>::empty())
        } else {
            rest.update(rest.len() - 1, rest.last().push(p.last()))
        }
    }
}

/// A piece that `Path::components` skips: empty, or `.` past the start.
pub open spec fn spec_skipped_piece(s: Seq<char>) -> bool {
    s.len() == 0 || s == seq!['.']
}

/// The kinds of the components the pieces give, in order: a plain name is
/// `true`, `..` is `false`, and skipped pieces give nothing.
pub open spec fn spec_piece_kinds(pieces: Seq<Seq<char>>) -> Seq<bool>
    decreases pieces.len(),
{
    if pieces.len() == 0 {
        Seq::empty()
    } else {
        let rest = spec_piece_kinds(pieces.drop_last());
        if spec_skipped_piece(pieces.last()) {
            rest
        } else {
            rest.push(pieces.last() != seq!['.', '.'])
        }
    }
}

/// The last piece that is not skipped, if any.
pub open spec fn spec_last_kept(pieces: Seq<Seq<char>>) -> Option<Seq<char>>
    decreases pieces.len(),
{
    if pieces.len() == 0 {
        None
    } else if spec_skipped_piece(pieces.last()) {
        spec_last_kept(pieces.drop_last())
    } else {
        Some(pieces.last())
    }
}

/// What `Path::file_name` returns for a path string on Unix: the final
/// component when it is a plain name; repeated and trailing separators and
/// `.` pieces are ignored, and a path ending in `..`, a root alone, `.` or
/// the empty path have none.
pub open spec fn spec_file_name(path: Seq<char>) -> Option<Seq<char>> {
    match spec_last_kept(spec_split_slash(path)) {
        Some(s) => if s == seq!['.', '.'] {
            None
        } else {
            Some(s)
        },
        None => None,
    }
}

/// For each component of the path, as `Path::components` reports them on
/// Unix, whether it is a plain name (`Component::Normal`): a leading `/` is
/// the root and a leading `.` piece the current directory (neither is a
/// name), then one component for each piece that is not skipped.
pub open spec fn spec_component_kinds(path: Seq<char>) -> Seq<bool> {
    let pieces = spec_split_slash(path);
    let lead = if path.len() > 0 && path[0] == '/' {
        seq![false]
    } else if pieces[0] == seq!['.'] {
        seq![false]
    } else {
        Seq::empty()
    };
    lead + spec_piece_kinds(pieces)
}

/// Splitting always gives at least one piece.
pub proof fn lemma_split_nonempty(p: Seq<char>)
    ensures
        spec_split_slash(p).len() >= 1,
    decreases p.len(),
{
    if p.len() > 0 {
        lemma_split_nonempty(p.drop_last());
    }
}

/// Text without a separator extends the last piece.
pub proof fn lemma_split_append_plain(x: Seq<char>, n: Seq<char>)
    requires
        !n.contains('/'),
    ensures
        spec_split_slash(x + n) == spec_split_slash(x).update(
            spec_split_slash(x).len() - 1,
            spec_split_slash(x).last() + n,
        ),
    decreases n.len(),
{
    lemma_split_nonempty(x);
    let sx = spec_split_slash(x);
    if n.len() == 0 {
        assert(x + n =~= x);
        assert(sx.last() + n =~= sx.last());
        assert(sx.update(sx.len() - 1, sx.last()) =~= sx);
    } else {
        let m = n.drop_last();
        let c = n.last();
        assert(!m.contains('/')) by {
            if m.contains('/') {
                let k = choose|k: int| 0 <= k < m.len() && m[k] == '/';
                assert(n[k] == '/');
            }
        }
        assert(c != '/') by {
            assert(n[n.len() - 1] == c);
        }
        lemma_split_append_plain(x, m);
        assert((x + n).drop_last() =~= x + m);
        assert((x + n).last() == c);
        assert((sx.last() + m).push(c) =~= sx.last() + n);
        assert(spec_split_slash(x + n) =~= sx.update(sx.len() - 1, sx.last() + n));
    }
}

/// A path without a separator is a single piece.
pub proof fn lemma_split_plain(n: Seq<char>)
    requires
        !n.contains('/'),
    ensures
        spec_split_slash(n) == seq![n],
{
    lemma_split_append_plain(Seq::empty(), n);
    assert(Seq::<char>::empty() + n =~= n);
    assert(Seq::<char>::empty() + n =~= n);
    assert(seq![Seq::<char>::empty()].update(0, Seq::<char>::empty() + n) =~= seq![n]);
}

/// Joining a plain name (no separator, not empty, `.` or `..`) onto a
/// directory gives a path whose file name is that name.
pub proof fn lemma_file_name_of_join(d: Seq<char>, n: Seq<char>)
    requires
        !n.contains('/'),
        n.len() > 0,
        n != seq!['.'],
        n != seq!['.', '.'],
    ensures
        spec_file_name(spec_join(d, n)) == Some(n),
{
    let x = if d.len() > 0 && d.last() != '/' {
        d + seq!['/']
    } else {
        d
    };
    assert(n[0] != '/');
    assert(spec_join(d, n) =~= x + n);
    lemma_split_nonempty(x);
    assert(spec_split_slash(x).last().len() == 0) by {
        if d.len() > 0 && d.last() != '/' {
            assert(x.drop_last() =~= d);
            assert(x.last() == '/');
        } else if d.len() > 0 {
            assert(x.last() == '/');
        }
    }
    lemma_split_append_plain(x, n);
    let sx = spec_split_slash(x);
    assert(sx.last() + n =~= n);
    assert(spec_split_slash(x + n).last() == n);
    assert(spec_split_slash(x + n).len() > 0);
}

/// Calls `Path::new(path).file_name()` (converted to a `String`, which loses
/// nothing for UTF-8 text).
#[verifier::external_body]
pub fn file_name(path: &str) -> (r: Option<String>)
    ensures
        crate::model::spec_opt_view(r) == spec_file_name(path@),
{
    std::path::Path::new(path).file_name().map(|n| n.to_string_lossy().into_owned())
}

/// Calls `Path::new(path).components()` and reports, for each component in
/// order, whether it is `Component::Normal`.
#[verifier::external_body]
fn component_kinds(path: &str) -> (r: Vec<bool>)
    ensures
        r@ == spec_component_kinds(path@),
{
    std::path::Path::new(path).components().map(
        |c| matches!(c, std::path::Component::Normal(_)),
    ).collect()
}

/// A bare name: a path without any directory separator that is one plain
/// name (not empty, `.` or `..`).
pub open spec fn spec_is_bare_name(path: Seq<char>) -> bool {
    &&& !path.contains('/')
    &&& spec_component_kinds(path).len() == 1
    &&& spec_component_kinds(path)[0]
}

/// Whether `path` is a bare name.
pub fn is_bare_name(path: &str) -> (b: bool)
    ensures
        b == spec_is_bare_name(path@),
{
    let v = chars_of(path);
    let mut i: usize = 0;
    while i < v.len()
        invariant
            i <= v@.len(),
            v@ == path@,
            forall|k: int| 0 <= k < i ==> v@[k] != '/',
        decreases v@.len() - i,
    {
        if v[i] == '/' {
            assert(path@.contains('/')) by {
                assert(path@[i as int] == '/');
            }
            return false;
        }
        i = i + 1;
    }
    let kinds = component_kinds(path);
    kinds.len() == 1 && kinds[0]
}

/// Position of the last `.` in `s`, if any.
pub open spec fn spec_last_dot(s: Seq<char>) -> Option<int>
    decreases s.len(),
{
    if s.len() == 0 {
        None
    } else if s.last() == '.' {
        Some(s.len() - 1)
    } else {
        spec_last_dot(s.drop_last())
    }
}

/// The extension of a file name, as `Path::extension` documents it: none
/// for `..`, none without an embedded `.`, none when the only `.` starts the
/// name; otherwise the text after the final `.`.
pub open spec fn spec_extension(name: Seq<char>) -> Option<Seq<char>> {
    if name == seq!['.', '.'] {
        None
    } else {
        match spec_last_dot(name) {
            Some(i) => if i == 0 {
                None
            } else {
                Some(name.subrange(i + 1, name.len() as int))
            },
            None => None,
        }
    }
}

/// The extension of the file name `name`.
pub fn extension(name: &str) -> (r: Option<String>)
    ensures
        crate::model::spec_opt_view(r) == spec_extension(name@),
{
    let v = chars_of(name);
    if v.len() == 2 && v[0] == '.' && v[1] == '.' {
        assert(v@ =~= seq!['.', '.']);
        return None;
    }
    proof {
        if v@.len() == 2 && v@ == seq!['.', '.'] {
            assert(v@[0] == '.' && v@[1] == '.');
        }
    }
    let mut i: usize = v.len();
    assert(v@.take(v@.len() as int) =~= v@);
    while i > 0 && v[i - 1] != '.'
        invariant
            i <= v@.len(),
            spec_last_dot(v@) == spec_last_dot(v@.take(i as int)),
        decreases i,
    {
        assert(v@.take(i as int).drop_last() =~= v@.take(i - 1));
        i = i - 1;
    }
    proof {
        assert(v@.take(v@.len() as int) =~= v@);
        if i > 0 {
            assert(spec_last_dot(v@.take(i as int)) == Some(i - 1));
        }
    }
    if i <= 1 {
        return None;
    }
    let mut out: Vec<char> = Vec::new();
    let mut j = i;
    while j < v.len()
        invariant
            i <= j <= v@.len(),
            out@ == v@.subrange(i as int, j as int),
        decreases v@.len() - j,
    {
        out.push(v[j]);
        j = j + 1;
        assert(out@ =~= v@.subrange(i as int, j as int));
    }
    Some(string_from_chars(&out))
}

/// A directory `base/sub` when `base` is known, the given I/O error otherwise.
pub open spec fn spec_dir_under(base: Option<Seq<char>>, sub: Seq<char>) -> Option<Seq<char>> {
    match base {
        Some(b) => Some(spec_join(b, sub)),
        None => None,
    }
}

/// Builds an `std::io::Error` of kind `Other` with this message
/// (`std::io::Error::other`).
#[verifier::external_body]
fn io_error(msg: &str) -> (e: std::io::Error) {
    std::io::Error::other(msg.to_string())
}

/// Calls `dirs::config_dir()`; the result depends on the environment
/// (`$XDG_CONFIG_HOME`, `$HOME`), so nothing is promised of it.
#[verifier::external_body]
fn user_config_dir() -> (r: Option<String>) {
    dirs::config_dir().map(|p| p.to_string_lossy().into_owned())
}

/// Calls `dirs::data_dir()`; the result depends on the environment.
#[verifier::external_body]
fn user_data_dir() -> (r: Option<String>) {
    dirs::data_dir().map(|p| p.to_string_lossy().into_owned())
}

/// Calls `dirs::state_dir()`; the result depends on the environment.
#[verifier::external_body]
fn user_state_dir() -> (r: Option<String>) {
    dirs::state_dir().map(|p| p.to_string_lossy().into_owned())
}

/// `base/cista` for a known base directory; otherwise an I/O error saying
/// which directory could not be determined.
pub fn cista_dir_under(base: Option<String>, what: &str) -> (r: CoreResult<String>)
    ensures
        r is Ok <==> base is Some,
        r matches Ok(p) ==> spec_dir_under(crate::model::spec_opt_view(base), "cista"@) == Some(
            p@,
        ),
        r matches Err(e) ==> e is Io,
{
    match base {
        Some(b) => Ok(join(b.as_str(), "cista")),
        None => Err(CoreError::Io(io_error(what))),
    }
}

/// The file name without its extension (`Path::file_stem`).
pub open spec fn spec_stem(name: Seq<char>) -> Seq<char> {
    if name == seq!['.', '.'] {
        name
    } else {
        match spec_last_dot(name) {
            Some(i) => if i == 0 {
                name
            } else {
                name.subrange(0, i)
            },
            None => name,
        }
    }
}

/// The file name `name` without its extension.
pub fn stem(name: &str) -> (r: String)
    ensures
        r@ == spec_stem(name@),
{
    let v = chars_of(name);
    if v.len() == 2 && v[0] == '.' && v[1] == '.' {
        assert(v@ =~= seq!['.', '.']);
        return to_owned_string(name);
    }
    proof {
        if v@.len() == 2 && v@ == seq!['.', '.'] {
            assert(v@[0] == '.' && v@[1] == '.');
        }
    }
    let mut i: usize = v.len();
    assert(v@.take(v@.len() as int) =~= v@);
    while i > 0 && v[i - 1] != '.'
        invariant
            i <= v@.len(),
            spec_last_dot(v@) == spec_last_dot(v@.take(i as int)),
        decreases i,
    {
        assert(v@.take(i as int).drop_last() =~= v@.take(i - 1));
        i = i - 1;
    }
    proof {
        if i > 0 {
            assert(spec_last_dot(v@.take(i as int)) == Some(i - 1));
        }
    }
    if i <= 1 {
        return to_owned_string(name);
    }
    string_from_range(&v, 0, i - 1)
}

/// `~/.config/cista`
pub fn config_dir() -> (r: CoreResult<String>)
    ensures
        r matches Ok(p) ==> exists|b: Seq<char>| p@ == spec_join(b, "cista"@),
        r matches Err(e) ==> e is Io,
{
    cista_dir_under(user_config_dir(), "could not determine config directory")
}

/// `~/.local/share/cista`
pub fn data_dir() -> (r: CoreResult<String>)
    ensures
        r matches Ok(p) ==> exists|b: Seq<char>| p@ == spec_join(b, "cista"@),
        r matches Err(e) ==> e is Io,
{
    cista_dir_under(user_data_dir(), "could not determine data directory")
}

/// `base/sub` for a directory that was found, the error unchanged when
/// looking it up failed.
pub fn dir_under(base: CoreResult<String>, sub: &str) -> (r: CoreResult<String>)
    ensures
        base matches Ok(d) ==> (r matches Ok(p) && p@ == spec_join(d@, sub@)),
        base matches Err(e) ==> (r matches Err(e2) && e2 == e),
{
    match base {
        Ok(d) => Ok(join(d.as_str(), sub)),
        Err(e) => Err(e),
    }
}

/// `~/.local/share/cista/vaults`
pub fn vaults_dir() -> (r: CoreResult<String>)
    ensures
        r matches Ok(p) ==> exists|b: Seq<char>| p@ == spec_join(spec_join(b, "cista"@), "vaults"@),
        r matches Err(e) ==> e is Io,
{
    dir_under(data_dir(), "vaults")
}

/// `~/.local/share/cista/backups`
pub fn backups_dir() -> (r: CoreResult<String>)
    ensures
        r matches Ok(p) ==> exists|b: Seq<char>| p@ == spec_join(spec_join(b, "cista"@), "backups"@),
        r matches Err(e) ==> e is Io,
{
    dir_under(data_dir(), "backups")
}

/// `~/.local/state/cista`
pub fn state_dir() -> (r: CoreResult<String>)
    ensures
        r matches Ok(p) ==> exists|b: Seq<char>| p@ == spec_join(b, "cista"@),
        r matches Err(e) ==> e is Io,
{
    cista_dir_under(user_state_dir(), "could not determine state directory")
}

} // verus!
