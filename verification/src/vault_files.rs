//! Which files of the vaults directory are vaults, what they are called, and
//! the order in which they are listed.
use crate::text::{chars_of, string_from_range};
use crate::tui::order::{lemma_text_le_total, lemma_text_le_trans, spec_text_le, text_le};
use vstd::prelude::*;

verus! {

broadcast use vstd::seq_lib::group_to_multiset_ensures;

/// The suffix of vault file names.
pub open spec fn spec_vault_suffix() -> Seq<char> {
    seq!['.', 'c', 'i', 's', 't', 'a']
}

/// `s` ends with `suffix`.
pub open spec fn spec_ends_with(s: Seq<char>, suffix: Seq<char>) -> bool {
    s.len() >= suffix.len() && s.subrange(s.len() - suffix.len(), s.len() as int) == suffix
}

/// `s` with every trailing repetition of `.cista` removed
/// (`str::trim_end_matches`).
pub open spec fn spec_strip_vault_suffix(s: Seq<char>) -> Seq<char>
    decreases s.len(),
{
    if spec_ends_with(s, spec_vault_suffix()) {
        spec_strip_vault_suffix(s.subrange(0, s.len() - 6))
    } else {
        s
    }
}

/// The vault name of a file name: files ending in `.cista` are vaults, named
/// by the file name without its trailing `.cista` suffixes.
pub fn vault_name(file_name: &str) -> (r: Option<String>)
    ensures
        !spec_ends_with(file_name@, spec_vault_suffix()) ==> r is None,
        spec_ends_with(file_name@, spec_vault_suffix()) ==> (r matches Some(n) && n@
            == spec_strip_vault_suffix(file_name@)),
{
    let v = chars_of(file_name);
    let mut end = v.len();
    assert(v@.subrange(0, end as int) =~= v@);
    if !ends_with_suffix(&v, end) {
        return None;
    }
    while ends_with_suffix(&v, end)
        invariant
            end <= v@.len(),
            v@ == file_name@,
            spec_strip_vault_suffix(file_name@) == spec_strip_vault_suffix(v@.subrange(0, end as int)),
        decreases end,
    {
        assert(v@.subrange(0, end as int).subrange(0, end - 6) =~= v@.subrange(0, end - 6));
        end = end - 6;
    }
    Some(string_from_range(&v, 0, end))
}

/// Whether `v[..end]` ends with `.cista`.
fn ends_with_suffix(v: &Vec<char>, end: usize) -> (b: bool)
    requires
        end <= v@.len(),
    ensures
        b == spec_ends_with(v@.subrange(0, end as int), spec_vault_suffix()),
{
    if end < 6 {
        return false;
    }
    let b = v[end - 6] == '.' && v[end - 5] == 'c' && v[end - 4] == 'i' && v[end - 3] == 's'
        && v[end - 2] == 't' && v[end - 1] == 'a';
    proof {
        let t = v@.subrange(0, end as int).subrange(end - 6, end as int);
        if b {
            assert(t =~= spec_vault_suffix());
        } else {
            if t == spec_vault_suffix() {
                assert(t[0] == '.' && t[1] == 'c' && t[2] == 'i' && t[3] == 's' && t[4] == 't' && t[5] == 'a');
            }
        }
    }
    b
}

/// Texts never decrease along the list.
pub open spec fn spec_sorted_texts(s: Seq<Seq<char>>) -> bool {
    forall|i: int, j: int| 0 <= i < j < s.len() ==> spec_text_le(#[trigger] s[i], #[trigger] s[j])
}

/// The texts of a list of strings.
pub open spec fn spec_texts(v: Seq<String>) -> Seq<Seq<char>> {
    v.map_values(|s: String| s@)
}

/// The strings in text order.
pub fn sort_texts(list: Vec<String>) -> (r: Vec<String>)
    ensures
        spec_sorted_texts(spec_texts(r@)),
        spec_texts(r@).to_multiset() == spec_texts(list@).to_multiset(),
{
    let mut sorted: Vec<String> = Vec::new();
    let mut rest = list;
    let ghost all = spec_texts(rest@);
    assert(spec_texts(sorted@) =~= Seq::<Seq<char>>::empty());
    while rest.len() > 0
        invariant
            spec_sorted_texts(spec_texts(sorted@)),
            spec_texts(sorted@).to_multiset().add(spec_texts(rest@).to_multiset())
                == all.to_multiset(),
        decreases rest@.len(),
    {
        let ghost before = spec_texts(rest@);
        let x = rest.remove(0);
        let ghost xs = spec_texts(sorted@);
        assert(before =~= spec_texts(rest@).insert(0, x@));
        let mut j = sorted.len();
        while j > 0 && !text_le(sorted[j - 1].as_str(), x.as_str())
            invariant
                j <= sorted@.len(),
                xs == spec_texts(sorted@),
                forall|k: int| j <= k < xs.len() ==> !spec_text_le(#[trigger] xs[k], x@),
            decreases j,
        {
            j = j - 1;
        }
        proof {
            assert forall|k: int| 0 <= k < j implies spec_text_le(#[trigger] xs[k], x@) by {
                if k < j - 1 {
                    lemma_text_le_trans(xs[k], xs[j - 1], x@);
                }
            }
            assert forall|k: int| j <= k < xs.len() implies spec_text_le(x@, #[trigger] xs[k]) by {
                lemma_text_le_total(x@, xs[k]);
            }
        }
        sorted.insert(j, x);
        proof {
            let ns = spec_texts(sorted@);
            assert(ns =~= xs.insert(j as int, x@));
            assert forall|a: int, b: int| 0 <= a < b < ns.len() implies spec_text_le(
                #[trigger] ns[a],
                #[trigger] ns[b],
            ) by {
                if a < j && b > j {
                    lemma_text_le_trans(ns[a], x@, ns[b]);
                }
            }
        }
    }
    sorted
}

} // verus!
