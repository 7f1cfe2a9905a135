//! The vault list is shown in name order: text compared character by
//! character, as `str` does.
use super::state::{VaultInfo, VaultInfoView};
use crate::text::chars_of;
use vstd::prelude::*;

verus! {

broadcast use vstd::seq_lib::group_to_multiset_ensures;

/// Text order: the first differing character decides; a prefix comes first.
pub open spec fn spec_text_le(a: Seq<char>, b: Seq<char>) -> bool
    decreases a.len(),
{
    if a.len() == 0 {
        true
    } else if b.len() == 0 {
        false
    } else if a[0] != b[0] {
        a[0] < b[0]
    } else {
        spec_text_le(a.drop_first(), b.drop_first())
    }
}

/// Any two texts are ordered one way or the other.
pub proof fn lemma_text_le_total(a: Seq<char>, b: Seq<char>)
    ensures
        spec_text_le(a, b) || spec_text_le(b, a),
    decreases a.len(),
{
    if a.len() > 0 && b.len() > 0 && a[0] == b[0] {
        lemma_text_le_total(a.drop_first(), b.drop_first());
    }
}

/// Every text comes no later than itself.
pub proof fn lemma_text_le_refl(a: Seq<char>)
    ensures
        spec_text_le(a, a),
    decreases a.len(),
{
    if a.len() > 0 {
        lemma_text_le_refl(a.drop_first());
    }
}

/// The text order is transitive.
pub proof fn lemma_text_le_trans(a: Seq<char>, b: Seq<char>, c: Seq<char>)
    requires
        spec_text_le(a, b),
        spec_text_le(b, c),
    ensures
        spec_text_le(a, c),
    decreases a.len(),
{
    if a.len() > 0 && b.len() > 0 && c.len() > 0 && a[0] == b[0] && b[0] == c[0] {
        lemma_text_le_trans(a.drop_first(), b.drop_first(), c.drop_first());
    }
}

/// Whether `a` comes no later than `b` in text order.
pub fn text_le(a: &str, b: &str) -> (r: bool)
    ensures
        r == spec_text_le(a@, b@),
{
    let x = chars_of(a);
    let y = chars_of(b);
    let mut i: usize = 0;
    assert(x@.skip(0) =~= x@);
    assert(y@.skip(0) =~= y@);
    while i < x.len() && i < y.len() && x[i] == y[i]
        invariant
            i <= x@.len(),
            i <= y@.len(),
            spec_text_le(a@, b@) == spec_text_le(x@.skip(i as int), y@.skip(i as int)),
            x@ == a@,
            y@ == b@,
        decreases x@.len() - i,
    {
        assert(x@.skip(i as int).drop_first() =~= x@.skip(i + 1));
        assert(y@.skip(i as int).drop_first() =~= y@.skip(i + 1));
        i = i + 1;
    }
    if i == x.len() {
        true
    } else if i == y.len() {
        false
    } else {
        x[i] < y[i]
    }
}

/// The views of a list of vault files.
pub open spec fn spec_infos(v: Seq<VaultInfo>) -> Seq<VaultInfoView> {
    v.map_values(|i: VaultInfo| i@)
}

/// Names never decrease along the list.
pub open spec fn spec_sorted_by_name(s: Seq<VaultInfoView>) -> bool {
    forall|i: int, j: int| 0 <= i < j < s.len() ==> spec_text_le(#[trigger] s[i].name, #[trigger] s[j].name)
}

/// `b` is `a` rearranged by `p` (`b[k]` is `a[p[k]]`), and files of equal
/// names keep the order they had in `a`.
pub open spec fn spec_stable_arrangement(a: Seq<VaultInfoView>, b: Seq<VaultInfoView>, p: Seq<int>) -> bool {
    &&& p.len() == b.len()
    &&& b.len() == a.len()
    &&& forall|k: int| 0 <= k < b.len() ==> 0 <= #[trigger] p[k] < a.len() && b[k] == a[p[k]]
    &&& forall|k1: int, k2: int| 0 <= k1 < k2 < b.len() ==> #[trigger] p[k1] != #[trigger] p[k2]
    &&& forall|k1: int, k2: int|
        0 <= k1 < k2 < b.len() && (#[trigger] b[k1]).name == (#[trigger] b[k2]).name ==> p[k1] < p[k2]
}

/// The vault files in name order; files of equal names keep their order.
pub fn sort_by_name(list: Vec<VaultInfo>) -> (r: Vec<VaultInfo>)
    ensures
        spec_sorted_by_name(spec_infos(r@)),
        spec_infos(r@).to_multiset() == spec_infos(list@).to_multiset(),
        exists|p: Seq<int>| spec_stable_arrangement(spec_infos(list@), spec_infos(r@), p),
{
    let mut sorted: Vec<VaultInfo> = Vec::new();
    let mut rest = list;
    let ghost all = spec_infos(rest@);
    let ghost mut perm: Seq<int> = Seq::empty();
    let ghost mut done: int = 0;
    assert(spec_infos(sorted@) =~= Seq::<VaultInfoView>::empty());
    assert(all.skip(0) =~= all);
    while rest.len() > 0
        invariant
            spec_sorted_by_name(spec_infos(sorted@)),
            spec_infos(sorted@).to_multiset().add(spec_infos(rest@).to_multiset())
                == all.to_multiset(),
            0 <= done <= all.len(),
            spec_infos(rest@) == all.skip(done),
            spec_stable_arrangement(all.take(done), spec_infos(sorted@), perm),
        decreases rest@.len(),
    {
        let ghost before = spec_infos(rest@);
        let x = rest.remove(0);
        let ghost xs = spec_infos(sorted@);
        assert(before =~= spec_infos(rest@).insert(0, x@));
        assert(before[0] == x@);
        assert(all.skip(done)[0] == all[done]);
        assert(spec_infos(rest@) =~= before.subrange(1, before.len() as int));
        assert(before.subrange(1, before.len() as int) =~= all.skip(done + 1));
        let mut j = sorted.len();
        while j > 0 && !text_le(sorted[j - 1].name.as_str(), x.name.as_str())
            invariant
                j <= sorted@.len(),
                xs == spec_infos(sorted@),
                forall|k: int| j <= k < xs.len() ==> !spec_text_le(#[trigger] xs[k].name, x@.name),
            decreases j,
        {
            j = j - 1;
        }
        proof {
            assert forall|k: int| 0 <= k < j implies spec_text_le(#[trigger] xs[k].name, x@.name) by {
                if k < j - 1 {
                    lemma_text_le_trans(xs[k].name, xs[j - 1].name, x@.name);
                }
            }
            assert forall|k: int| j <= k < xs.len() implies spec_text_le(x@.name, #[trigger] xs[k].name) by {
                lemma_text_le_total(x@.name, xs[k].name);
            }
        }
        let ghost xv = x@;
        sorted.insert(j, x);
        proof {
            let ns = spec_infos(sorted@);
            assert(ns =~= xs.insert(j as int, xv));
            assert forall|a: int, b: int| 0 <= a < b < ns.len() implies spec_text_le(
                #[trigger] ns[a].name,
                #[trigger] ns[b].name,
            ) by {
                if a < j && b == j {
                } else if a == j && b > j {
                } else if a < j && b > j {
                    lemma_text_le_trans(ns[a].name, xv.name, ns[b].name);
                } else if a < j {
                } else {
                }
            }
            let old_perm = perm;
            let np = old_perm.insert(j as int, done);
            let at = all.take(done + 1);
            assert forall|k: int| 0 <= k < ns.len() implies 0 <= #[trigger] np[k] < at.len()
                && ns[k] == at[np[k]] by {
                if k < j {
                    assert(np[k] == old_perm[k]);
                } else if k == j {
                } else {
                    assert(np[k] == old_perm[k - 1]);
                }
            }
            assert forall|k1: int, k2: int| 0 <= k1 < k2 < ns.len() implies #[trigger] np[k1]
                != #[trigger] np[k2] by {
                if k1 < j && k2 > j {
                    assert(np[k1] == old_perm[k1]);
                    assert(np[k2] == old_perm[k2 - 1]);
                } else if k1 > j {
                    assert(np[k1] == old_perm[k1 - 1]);
                    assert(np[k2] == old_perm[k2 - 1]);
                } else if k2 < j {
                } else if k1 == j {
                    assert(np[k2] == old_perm[k2 - 1]);
                } else {
                    assert(np[k1] == old_perm[k1]);
                }
            }
            assert forall|k1: int, k2: int|
                0 <= k1 < k2 < ns.len() && (#[trigger] ns[k1]).name == (#[trigger] ns[k2]).name
                implies np[k1] < np[k2] by {
                if k1 == j {
                    lemma_text_le_refl(xv.name);
                    assert(!spec_text_le(xs[k2 - 1].name, xv.name));
                } else if k2 == j {
                    assert(np[k1] == old_perm[k1]);
                } else if k1 < j && k2 > j {
                    assert(np[k1] == old_perm[k1]);
                    assert(np[k2] == old_perm[k2 - 1]);
                    assert(ns[k1] == xs[k1]);
                    assert(ns[k2] == xs[k2 - 1]);
                } else if k1 > j {
                    assert(np[k1] == old_perm[k1 - 1]);
                    assert(np[k2] == old_perm[k2 - 1]);
                    assert(ns[k1] == xs[k1 - 1]);
                    assert(ns[k2] == xs[k2 - 1]);
                } else {
                    assert(np[k1] == old_perm[k1]);
                    assert(np[k2] == old_perm[k2]);
                }
            }
            perm = np;
            done = done + 1;
        }
    }
    proof {
        assert(all.take(done) =~= all);
    }
    sorted
}

} // verus!
