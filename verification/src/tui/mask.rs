//! Hiding secret text on screen.
use crate::text::{chars_of, push_char};
use vstd::prelude::*;

verus! {

/// One bullet per character of the hidden text.
pub open spec fn spec_mask(n: nat) -> Seq<char> {
    Seq::new(n, |i: int| '•')
}

/// A bullet for each character of `pwd`, so its length shows but not its text.
pub fn mask_password(pwd: &str) -> (r: String)
    ensures
        r@ == spec_mask(pwd@.len()),
{
    let n = chars_of(pwd).len();
    let mut r = String::new();
    let mut i: usize = 0;
    while i < n
        invariant
            i <= n,
            n == pwd@.len(),
            r@ == spec_mask(i as nat),
        decreases n - i,
    {
        push_char(&mut r, '•');
        i = i + 1;
        assert(r@ =~= spec_mask(i as nat));
    }
    r
}

} // verus!
