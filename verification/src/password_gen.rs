//! Random password generation with category guarantees, and a small offline
//! strength heuristic.
use crate::text::{
    chars_of, spec_is_ascii_alphanumeric, spec_is_ascii_digit, spec_is_ascii_lowercase,
    spec_is_ascii_uppercase, spec_views, str_eq, string_from_chars,
};
use crate::{CoreError, CoreResult};
use rand::seq::SliceRandom;
use vstd::prelude::*;
use vstd::string::StringSliceAdditionalSpecFns;

verus! {

broadcast use vstd::seq_lib::group_filter_ensures, vstd::seq_lib::group_to_multiset_ensures;

pub const LOWERCASE: &'static str = "abcdefghijklmnopqrstuvwxyz";

pub const UPPERCASE: &'static str = "ABCDEFGHIJKLMNOPQRSTUVWXYZ";

pub const DIGITS: &'static str = "0123456789";

pub const SYMBOLS: &'static str = "!@#$%^&*()-_=+";

/// Characters that are easily confused with one another.
pub const AMBIGUOUS: &'static str = "0O1lI";

/// What a generated password must look like.
pub struct PasswordPolicy {
    pub length: usize,
    pub include_lowercase: bool,
    pub include_uppercase: bool,
    pub include_digits: bool,
    pub include_symbols: bool,
    pub exclude_ambiguous: bool,
}

impl Default for PasswordPolicy {
    /// Twenty characters from all four classes, ambiguous ones allowed.
    fn default() -> (p: Self)
        ensures
            p.length == 20,
            p.include_lowercase,
            p.include_uppercase,
            p.include_digits,
            p.include_symbols,
            !p.exclude_ambiguous,
    {
        PasswordPolicy {
            length: 20,
            include_lowercase: true,
            include_uppercase: true,
            include_digits: true,
            include_symbols: true,
            exclude_ambiguous: false,
        }
    }
}

/// `c` is one of the ambiguous characters.
pub open spec fn spec_is_ambiguous(c: char) -> bool {
    AMBIGUOUS@.contains(c)
}

/// The alphabet `raw`, without ambiguous characters when `exclude` is set.
pub open spec fn spec_filtered(raw: Seq<char>, exclude: bool) -> Seq<char> {
    if exclude {
        raw.filter(|c: char| !spec_is_ambiguous(c))
    } else {
        raw
    }
}

/// Adds the (filtered) alphabet `raw` when its class is enabled and it is
/// not empty.
pub open spec fn spec_push_category(
    cats: Seq<Seq<char>>,
    enabled: bool,
    raw: Seq<char>,
    exclude: bool,
) -> Seq<Seq<char>> {
    if enabled && spec_filtered(raw, exclude).len() > 0 {
        cats.push(spec_filtered(raw, exclude))
    } else {
        cats
    }
}

/// The alphabets of the enabled classes, in the order lower-case, upper-case,
/// digits, symbols, ambiguous characters removed if requested, empty ones
/// dropped.
pub open spec fn spec_active_categories(p: PasswordPolicy) -> Seq<Seq<char>> {
    let c0 = spec_push_category(Seq::empty(), p.include_lowercase, LOWERCASE@, p.exclude_ambiguous);
    let c1 = spec_push_category(c0, p.include_uppercase, UPPERCASE@, p.exclude_ambiguous);
    let c2 = spec_push_category(c1, p.include_digits, DIGITS@, p.exclude_ambiguous);
    spec_push_category(c2, p.include_symbols, SYMBOLS@, p.exclude_ambiguous)
}

/// Every alphabet of the sequence, concatenated.
pub open spec fn spec_flatten(cats: Seq<Seq<char>>) -> Seq<char>
    decreases cats.len(),
{
    if cats.len() == 0 {
        Seq::empty()
    } else {
        spec_flatten(cats.drop_last()) + cats.last()
    }
}

/// Some character of `p` is taken from `alphabet`.
pub open spec fn spec_uses_alphabet(p: Seq<char>, alphabet: Seq<char>) -> bool {
    exists|k: int| 0 <= k < p.len() && alphabet.contains(#[trigger] p[k])
}

/// `v` with ambiguous characters removed when `exclude` is set.
fn filtered(raw: &str, exclude: bool) -> (r: Vec<char>)
    ensures
        r@ == spec_filtered(raw@, exclude),
{
    let v = chars_of(raw);
    if !exclude {
        return v;
    }
    let amb = chars_of(AMBIGUOUS);
    let ghost pred = |c: char| !spec_is_ambiguous(c);
    let mut r: Vec<char> = Vec::new();
    let mut i: usize = 0;
    while i < v.len()
        invariant
            i <= v@.len(),
            v@ == raw@,
            amb@ == AMBIGUOUS@,
            pred == (|c: char| !spec_is_ambiguous(c)),
            r@ == v@.take(i as int).filter(pred),
        decreases v@.len() - i,
    {
        let c = v[i];
        let is_amb = contains_char(&amb, c);
        proof {
            reveal_with_fuel(Seq::<_>::filter, 1);
            assert(v@.take(i + 1).drop_last() =~= v@.take(i as int));
        }
        if !is_amb {
            r.push(c);
        }
        i = i + 1;
    }
    assert(v@.take(v@.len() as int) =~= v@);
    r
}

/// Whether `c` occurs in `v`.
fn contains_char(v: &Vec<char>, c: char) -> (b: bool)
    ensures
        b == v@.contains(c),
{
    let mut i: usize = 0;
    while i < v.len()
        invariant
            i <= v@.len(),
            forall|j: int| 0 <= j < i ==> v@[j] != c,
        decreases v@.len() - i,
    {
        if v[i] == c {
            return true;
        }
        i = i + 1;
    }
    false
}

/// Appends the filtered alphabet when its class is enabled and it is not empty.
fn push_filtered(cats: &mut Vec<String>, enabled: bool, raw: &str, exclude: bool)
    ensures
        spec_views(final(cats)@) == spec_push_category(
            spec_views(old(cats)@),
            enabled,
            raw@,
            exclude,
        ),
{
    if enabled {
        let f = filtered(raw, exclude);
        if f.len() > 0 {
            let s = string_from_chars(&f);
            cats.push(s);
            assert(spec_views(final(cats)@) =~= spec_views(old(cats)@).push(f@));
        }
    }
}

/// Returns the list of active category alphabets (one string per enabled
/// category), with ambiguous characters already filtered out if requested.
pub fn active_categories(policy: &PasswordPolicy) -> (r: Vec<String>)
    ensures
        spec_views(r@) == spec_active_categories(*policy),
{
    let mut categories: Vec<String> = Vec::new();
    assert(spec_views(categories@) =~= Seq::<Seq<char>>::empty());
    push_filtered(&mut categories, policy.include_lowercase, LOWERCASE, policy.exclude_ambiguous);
    push_filtered(&mut categories, policy.include_uppercase, UPPERCASE, policy.exclude_ambiguous);
    push_filtered(&mut categories, policy.include_digits, DIGITS, policy.exclude_ambiguous);
    push_filtered(&mut categories, policy.include_symbols, SYMBOLS, policy.exclude_ambiguous);
    categories
}

/// Picks one element of `chars` at random.
///
/// Calls rand 0.8 `SliceRandom::choose` with `thread_rng()`; the crate's
/// source returns `None` exactly for an empty slice and otherwise an element
/// at a random index.
#[verifier::external_body]
fn choose_char(chars: &Vec<char>) -> (r: Option<char>)
    ensures
        r is Some <==> chars@.len() > 0,
        r matches Some(c) ==> chars@.contains(c),
{
    chars.as_slice().choose(&mut rand::thread_rng()).copied()
}

/// Shuffles `chars` in place at random.
///
/// Calls rand 0.8 `SliceRandom::shuffle` with `thread_rng()`; the crate's
/// source permutes the slice by swaps (Fisher-Yates), so the result holds the
/// same characters with the same multiplicities.
#[verifier::external_body]
fn shuffle_chars(chars: &mut Vec<char>)
    ensures
        final(chars)@.len() == old(chars)@.len(),
        final(chars)@.to_multiset() == old(chars)@.to_multiset(),
{
    chars.as_mut_slice().shuffle(&mut rand::thread_rng());
}

/// `c` belongs to one of the alphabets.
proof fn lemma_flatten_contains(cats: Seq<Seq<char>>, i: int, c: char)
    requires
        0 <= i < cats.len(),
        cats[i].contains(c),
    ensures
        spec_flatten(cats).contains(c),
    decreases cats.len(),
{
    let f = spec_flatten(cats);
    if i == cats.len() - 1 {
        let k = choose|k: int| 0 <= k < cats[i].len() && cats[i][k] == c;
        assert(f[spec_flatten(cats.drop_last()).len() + k] == c);
    } else {
        lemma_flatten_contains(cats.drop_last(), i, c);
        let k = choose|k: int|
            0 <= k < spec_flatten(cats.drop_last()).len() && spec_flatten(cats.drop_last())[k] == c;
        assert(f[k] == c);
    }
}

/// Every character of the concatenation comes from one of the alphabets.
proof fn lemma_flatten_member(cats: Seq<Seq<char>>, c: char)
    requires
        spec_flatten(cats).contains(c),
    ensures
        exists|i: int| 0 <= i < cats.len() && #[trigger] cats[i].contains(c),
    decreases cats.len(),
{
    if cats.len() > 0 {
        let f = spec_flatten(cats);
        let d = spec_flatten(cats.drop_last());
        let k = choose|k: int| 0 <= k < f.len() && f[k] == c;
        if k < d.len() {
            assert(d[k] == c);
            lemma_flatten_member(cats.drop_last(), c);
            let i = choose|i: int| 0 <= i < cats.drop_last().len() && cats.drop_last()[i].contains(c);
            assert(cats[i] == cats.drop_last()[i]);
        } else {
            assert(cats.last()[k - d.len()] == c);
            assert(cats[cats.len() - 1].contains(c));
        }
    }
}

/// No alphabet of the active categories holds an ambiguous character when
/// the policy excludes them.
proof fn lemma_active_unambiguous(p: PasswordPolicy, c: char)
    requires
        p.exclude_ambiguous,
        spec_flatten(spec_active_categories(p)).contains(c),
    ensures
        !spec_is_ambiguous(c),
{
    let cats = spec_active_categories(p);
    lemma_flatten_member(cats, c);
    let i = choose|i: int| 0 <= i < cats.len() && #[trigger] cats[i].contains(c);
    let raws = seq![LOWERCASE@, UPPERCASE@, DIGITS@, SYMBOLS@];
    assert(exists|r: int| 0 <= r < 4 && cats[i] == spec_filtered(#[trigger] raws[r], true));
    let r = choose|r: int| 0 <= r < 4 && cats[i] == spec_filtered(#[trigger] raws[r], true);
    let pred = |x: char| !spec_is_ambiguous(x);
    let k = choose|k: int| 0 <= k < cats[i].len() && cats[i][k] == c;
    raws[r].lemma_filter_pred(pred, k);
}

/// Every active alphabet is non-empty.
proof fn lemma_active_nonempty(p: PasswordPolicy)
    ensures
        forall|i: int|
            0 <= i < spec_active_categories(p).len() ==> #[trigger] spec_active_categories(
                p,
            )[i].len() > 0,
{
}

/// An enabled class whose alphabet keeps some character after filtering
/// adds its filtered alphabet to the categories.
proof fn lemma_enabled_class_pushed(cats: Seq<Seq<char>>, raw: Seq<char>, ex: bool, j: int)
    requires
        0 <= j < raw.len(),
        ex ==> !spec_is_ambiguous(raw[j]),
    ensures
        spec_filtered(raw, ex).contains(raw[j]),
        spec_push_category(cats, true, raw, ex) == cats.push(spec_filtered(raw, ex)),
{
    if ex {
        let pred = |c: char| !spec_is_ambiguous(c);
        raw.lemma_filter_contains(pred, j);
        assert(raw.filter(pred) == spec_filtered(raw, ex));
    }
}

/// A character of a filtered alphabet comes from the alphabet.
proof fn lemma_filtered_from(raw: Seq<char>, ex: bool, c: char)
    requires
        spec_filtered(raw, ex).contains(c),
    ensures
        raw.contains(c),
{
    if ex {
        let pred = |x: char| !spec_is_ambiguous(x);
        assert(raw.filter(pred) == spec_filtered(raw, ex));
        raw.lemma_filter_contains_rev(pred, c);
    }
}

/// A password valid for the category list `cats` whose length allows it
/// takes some character from the category at `i`.
proof fn lemma_category_used(policy: PasswordPolicy, p: Seq<char>, i: int)
    requires
        spec_valid_password(policy, p),
        0 <= i < spec_active_categories(policy).len(),
        i < policy.length,
    ensures
        exists|k: int|
            0 <= k < p.len() && #[trigger] spec_active_categories(policy)[i].contains(p[k]),
{
    assert(spec_uses_alphabet(p, spec_active_categories(policy)[i]));
}

/// A generated password that is long enough to hold one character of each
/// class holds a character of every class the policy enables: a lower-case
/// letter, an upper-case letter, a digit and one of the symbols
/// `!@#$%^&*()-_=+`, whether or not ambiguous characters are excluded.
pub proof fn lemma_password_has_every_enabled_class(policy: PasswordPolicy, p: Seq<char>)
    requires
        spec_valid_password(policy, p),
        policy.length >= 4,
    ensures
        policy.include_lowercase ==> exists|k: int|
            0 <= k < p.len() && spec_is_ascii_lowercase(#[trigger] p[k]),
        policy.include_uppercase ==> exists|k: int|
            0 <= k < p.len() && spec_is_ascii_uppercase(#[trigger] p[k]),
        policy.include_digits ==> exists|k: int|
            0 <= k < p.len() && spec_is_ascii_digit(#[trigger] p[k]),
        policy.include_symbols ==> exists|k: int|
            0 <= k < p.len() && "!@#$%^&*()-_=+"@.contains(#[trigger] p[k]),
{
    reveal_strlit("abcdefghijklmnopqrstuvwxyz");
    reveal_strlit("ABCDEFGHIJKLMNOPQRSTUVWXYZ");
    reveal_strlit("0123456789");
    reveal_strlit("!@#$%^&*()-_=+");
    reveal_strlit("0O1lI");
    let ex = policy.exclude_ambiguous;
    let c0 = spec_push_category(Seq::empty(), policy.include_lowercase, LOWERCASE@, ex);
    let c1 = spec_push_category(c0, policy.include_uppercase, UPPERCASE@, ex);
    let c2 = spec_push_category(c1, policy.include_digits, DIGITS@, ex);
    let c3 = spec_push_category(c2, policy.include_symbols, SYMBOLS@, ex);
    assert(c3 == spec_active_categories(policy));
    assert(c0.len() <= 1 && c1.len() <= 2 && c2.len() <= 3);
    if policy.include_lowercase {
        assert(!spec_is_ambiguous(LOWERCASE@[0]));
        lemma_enabled_class_pushed(Seq::empty(), LOWERCASE@, ex, 0);
        assert(c3[0] == spec_filtered(LOWERCASE@, ex));
        lemma_category_used(policy, p, 0);
        let k = choose|k: int| 0 <= k < p.len() && c3[0].contains(p[k]);
        lemma_filtered_from(LOWERCASE@, ex, p[k]);
        lemma_alphabet_class(LOWERCASE@, p[k]);
    }
    if policy.include_uppercase {
        assert(!spec_is_ambiguous(UPPERCASE@[0]));
        lemma_enabled_class_pushed(c0, UPPERCASE@, ex, 0);
        let i = c0.len() as int;
        assert(c3[i] == spec_filtered(UPPERCASE@, ex));
        lemma_category_used(policy, p, i);
        let k = choose|k: int| 0 <= k < p.len() && c3[i].contains(p[k]);
        lemma_filtered_from(UPPERCASE@, ex, p[k]);
        lemma_alphabet_class(UPPERCASE@, p[k]);
    }
    if policy.include_digits {
        assert(!spec_is_ambiguous(DIGITS@[2]));
        lemma_enabled_class_pushed(c1, DIGITS@, ex, 2);
        let i = c1.len() as int;
        assert(c3[i] == spec_filtered(DIGITS@, ex));
        lemma_category_used(policy, p, i);
        let k = choose|k: int| 0 <= k < p.len() && c3[i].contains(p[k]);
        lemma_filtered_from(DIGITS@, ex, p[k]);
        lemma_alphabet_class(DIGITS@, p[k]);
    }
    if policy.include_symbols {
        assert(!spec_is_ambiguous(SYMBOLS@[0]));
        lemma_enabled_class_pushed(c2, SYMBOLS@, ex, 0);
        let i = c2.len() as int;
        assert(c3[i] == spec_filtered(SYMBOLS@, ex));
        lemma_category_used(policy, p, i);
        let k = choose|k: int| 0 <= k < p.len() && c3[i].contains(p[k]);
        lemma_filtered_from(SYMBOLS@, ex, p[k]);
    }
}

/// Every character of a generated password belongs to a class the policy
/// enables (and, when ambiguous characters are excluded, is none of
/// `0O1lI`).
pub proof fn lemma_password_only_enabled_classes(policy: PasswordPolicy, p: Seq<char>, k: int)
    requires
        spec_valid_password(policy, p),
        0 <= k < p.len(),
    ensures
        (policy.include_lowercase && spec_is_ascii_lowercase(p[k])) || (policy.include_uppercase
            && spec_is_ascii_uppercase(p[k])) || (policy.include_digits && spec_is_ascii_digit(p[k]))
            || (policy.include_symbols && "!@#$%^&*()-_=+"@.contains(p[k])),
        policy.exclude_ambiguous ==> !"0O1lI"@.contains(p[k]),
{
    reveal_strlit("!@#$%^&*()-_=+");
    reveal_strlit("0O1lI");
    let ex = policy.exclude_ambiguous;
    let c0 = spec_push_category(Seq::empty(), policy.include_lowercase, LOWERCASE@, ex);
    let c1 = spec_push_category(c0, policy.include_uppercase, UPPERCASE@, ex);
    let c2 = spec_push_category(c1, policy.include_digits, DIGITS@, ex);
    let c3 = spec_push_category(c2, policy.include_symbols, SYMBOLS@, ex);
    assert(c3 == spec_active_categories(policy));
    let c = p[k];
    lemma_flatten_member(c3, c);
    let i = choose|i: int| 0 <= i < c3.len() && #[trigger] c3[i].contains(c);
    if i < c0.len() {
        assert(c3[i] == spec_filtered(LOWERCASE@, ex));
        lemma_filtered_from(LOWERCASE@, ex, c);
        lemma_alphabet_class(LOWERCASE@, c);
    } else if i < c1.len() {
        assert(c3[i] == spec_filtered(UPPERCASE@, ex));
        lemma_filtered_from(UPPERCASE@, ex, c);
        lemma_alphabet_class(UPPERCASE@, c);
    } else if i < c2.len() {
        assert(c3[i] == spec_filtered(DIGITS@, ex));
        lemma_filtered_from(DIGITS@, ex, c);
        lemma_alphabet_class(DIGITS@, c);
    } else {
        assert(c3[i] == spec_filtered(SYMBOLS@, ex));
        lemma_filtered_from(SYMBOLS@, ex, c);
    }
}

/// Every character of an enabled class can be drawn: it is in the pool the
/// password is drawn from, unless it is one of the ambiguous `0O1lI` and
/// those are excluded. Nothing else of the class is left out.
pub proof fn lemma_pool_holds_every_allowed_character(policy: PasswordPolicy, c: char)
    requires
        (policy.include_lowercase && LOWERCASE@.contains(c)) || (policy.include_uppercase
            && UPPERCASE@.contains(c)) || (policy.include_digits && DIGITS@.contains(c)) || (
        policy.include_symbols && SYMBOLS@.contains(c)),
        policy.exclude_ambiguous ==> !"0O1lI"@.contains(c),
    ensures
        spec_flatten(spec_active_categories(policy)).contains(c),
{
    reveal_strlit("0O1lI");
    let ex = policy.exclude_ambiguous;
    let c0 = spec_push_category(Seq::empty(), policy.include_lowercase, LOWERCASE@, ex);
    let c1 = spec_push_category(c0, policy.include_uppercase, UPPERCASE@, ex);
    let c2 = spec_push_category(c1, policy.include_digits, DIGITS@, ex);
    let c3 = spec_push_category(c2, policy.include_symbols, SYMBOLS@, ex);
    assert(c3 == spec_active_categories(policy));
    if policy.include_lowercase && LOWERCASE@.contains(c) {
        let j = choose|j: int| 0 <= j < LOWERCASE@.len() && LOWERCASE@[j] == c;
        lemma_enabled_class_pushed(Seq::empty(), LOWERCASE@, ex, j);
        lemma_flatten_contains(c3, 0, c);
    } else if policy.include_uppercase && UPPERCASE@.contains(c) {
        let j = choose|j: int| 0 <= j < UPPERCASE@.len() && UPPERCASE@[j] == c;
        lemma_enabled_class_pushed(c0, UPPERCASE@, ex, j);
        lemma_flatten_contains(c3, c0.len() as int, c);
    } else if policy.include_digits && DIGITS@.contains(c) {
        let j = choose|j: int| 0 <= j < DIGITS@.len() && DIGITS@[j] == c;
        lemma_enabled_class_pushed(c1, DIGITS@, ex, j);
        lemma_flatten_contains(c3, c1.len() as int, c);
    } else {
        let j = choose|j: int| 0 <= j < SYMBOLS@.len() && SYMBOLS@[j] == c;
        lemma_enabled_class_pushed(c2, SYMBOLS@, ex, j);
        lemma_flatten_contains(c3, c2.len() as int, c);
    }
}

/// The characters of the built-in alphabets belong to their classes.
proof fn lemma_alphabet_class(raw: Seq<char>, c: char)
    requires
        raw.contains(c),
        raw == LOWERCASE@ || raw == UPPERCASE@ || raw == DIGITS@,
    ensures
        raw == LOWERCASE@ ==> spec_is_ascii_lowercase(c),
        raw == UPPERCASE@ ==> spec_is_ascii_uppercase(c),
        raw == DIGITS@ ==> spec_is_ascii_digit(c),
{
    reveal_strlit("abcdefghijklmnopqrstuvwxyz");
    reveal_strlit("ABCDEFGHIJKLMNOPQRSTUVWXYZ");
    reveal_strlit("0123456789");
    let j = choose|j: int| 0 <= j < raw.len() && raw[j] == c;
    if raw == LOWERCASE@ {
        assert(forall|i: int| 0 <= i < 26 ==> 'a' <= #[trigger] LOWERCASE@[i] <= 'z');
    }
    if raw == UPPERCASE@ {
        assert(forall|i: int| 0 <= i < 26 ==> 'A' <= #[trigger] UPPERCASE@[i] <= 'Z');
    }
    if raw == DIGITS@ {
        assert(forall|i: int| 0 <= i < 10 ==> '0' <= #[trigger] DIGITS@[i] <= '9');
    }
}

/// Concatenates the alphabets into one vector.
fn flatten(cats: &Vec<String>) -> (r: Vec<char>)
    ensures
        r@ == spec_flatten(spec_views(cats@)),
{
    let ghost views = spec_views(cats@);
    let mut r: Vec<char> = Vec::new();
    let mut i: usize = 0;
    while i < cats.len()
        invariant
            i <= cats@.len(),
            views == spec_views(cats@),
            r@ == spec_flatten(views.take(i as int)),
        decreases cats@.len() - i,
    {
        let part = chars_of(cats[i].as_str());
        let mut j: usize = 0;
        let ghost before = r@;
        while j < part.len()
            invariant
                j <= part@.len(),
                r@ == before + part@.take(j as int),
            decreases part@.len() - j,
        {
            r.push(part[j]);
            j = j + 1;
            assert(r@ =~= before + part@.take(j as int));
        }
        assert(views.take(i + 1).drop_last() =~= views.take(i as int));
        assert(part@.take(part@.len() as int) =~= part@);
        i = i + 1;
    }
    assert(views.take(cats@.len() as int) =~= views);
    r
}

/// What a generated password satisfies: the requested length, characters
/// only from the enabled classes, at least one character of each enabled
/// class (as far as the length allows), and no ambiguous character when
/// those are excluded.
pub open spec fn spec_valid_password(policy: PasswordPolicy, p: Seq<char>) -> bool {
    &&& p.len() == policy.length
    &&& forall|k: int|
        0 <= k < p.len() ==> spec_flatten(spec_active_categories(policy)).contains(#[trigger] p[k])
    &&& forall|i: int|
        0 <= i < spec_active_categories(policy).len() && i < policy.length ==> spec_uses_alphabet(
            p,
            #[trigger] spec_active_categories(policy)[i],
        )
    &&& policy.exclude_ambiguous ==> forall|k: int| 0 <= k < p.len() ==> !spec_is_ambiguous(#[trigger] p[k])
}

/// Generates a random password per `policy`, guaranteeing one char from each
/// enabled category (when `length` allows), then fills and shuffles.
pub fn generate_password(policy: &PasswordPolicy) -> (r: CoreResult<String>)
    ensures
        policy.length == 0 ==> r matches Err(CoreError::ZeroLength),
        policy.length > 0 && spec_active_categories(*policy).len() == 0 ==> r matches Err(
            CoreError::EmptyCharset,
        ),
        r is Ok <==> policy.length > 0 && spec_active_categories(*policy).len() > 0,
        r matches Ok(p) ==> spec_valid_password(*policy, p@),
{
    if policy.length == 0 {
        return Err(CoreError::ZeroLength);
    }
    let categories = active_categories(policy);
    if categories.len() == 0 {
        return Err(CoreError::EmptyCharset);
    }
    let ghost cats = spec_active_categories(*policy);
    let combined = flatten(&categories);
    proof {
        lemma_active_nonempty(*policy);
        assert(cats[0].contains(cats[0][0]));
        lemma_flatten_contains(cats, 0, cats[0][0]);
    }
    let mut password_chars: Vec<char> = Vec::new();
    let n = if categories.len() < policy.length {
        categories.len()
    } else {
        policy.length
    };
    let mut i: usize = 0;
    while i < n
        invariant
            i <= n <= policy.length,
            n <= cats.len(),
            cats == spec_views(categories@),
            cats == spec_active_categories(*policy),
            forall|k: int| 0 <= k < cats.len() ==> #[trigger] cats[k].len() > 0,
            password_chars@.len() == i,
            forall|k: int| 0 <= k < i ==> #[trigger] cats[k].contains(password_chars@[k]),
            forall|k: int|
                0 <= k < password_chars@.len() ==> spec_flatten(cats).contains(
                    #[trigger] password_chars@[k],
                ),
        decreases n - i,
    {
        let chars = chars_of(categories[i].as_str());
        assert(chars@ == cats[i as int]);
        let chosen = match choose_char(&chars) {
            Some(c) => c,
            None => {
                return Err(CoreError::EmptyCharset);
            },
        };
        proof {
            lemma_flatten_contains(cats, i as int, chosen);
        }
        password_chars.push(chosen);
        i = i + 1;
    }
    while password_chars.len() < policy.length
        invariant
            n <= password_chars@.len() <= policy.length,
            n == (if cats.len() < policy.length { cats.len() } else { policy.length as nat }),
            combined@ == spec_flatten(cats),
            combined@.len() > 0,
            forall|k: int| 0 <= k < n ==> #[trigger] cats[k].contains(password_chars@[k]),
            forall|k: int|
                0 <= k < password_chars@.len() ==> spec_flatten(cats).contains(
                    #[trigger] password_chars@[k],
                ),
        decreases policy.length - password_chars@.len(),
    {
        let chosen = match choose_char(&combined) {
            Some(c) => c,
            None => {
                return Err(CoreError::EmptyCharset);
            },
        };
        password_chars.push(chosen);
    }
    let ghost before = password_chars@;
    shuffle_chars(&mut password_chars);
    proof {
        let after = password_chars@;
        assert forall|k: int| 0 <= k < after.len() implies spec_flatten(cats).contains(
            #[trigger] after[k],
        ) by {
            assert(after.contains(after[k]));
            assert(before.to_multiset().count(after[k]) > 0);
            assert(before.contains(after[k]));
            let j = choose|j: int| 0 <= j < before.len() && before[j] == after[k];
            assert(spec_flatten(cats).contains(before[j]));
        }
        assert forall|i: int|
            #![trigger cats[i]]
            0 <= i < cats.len() && i < policy.length implies exists|k: int|
            0 <= k < after.len() && #[trigger] cats[i].contains(after[k]) by {
            let c = before[i];
            assert(before.contains(c));
            assert(after.to_multiset().count(c) > 0);
            assert(after.contains(c));
            let k = choose|k: int| 0 <= k < after.len() && after[k] == c;
            assert(cats[i].contains(after[k]));
        }
        if policy.exclude_ambiguous {
            assert forall|k: int| 0 <= k < after.len() implies !spec_is_ambiguous(
                #[trigger] after[k],
            ) by {
                lemma_active_unambiguous(*policy, after[k]);
            }
        }
    }
    let result = string_from_chars(&password_chars);
    proof {
        assert forall|i: int|
            0 <= i < spec_active_categories(*policy).len() && i < policy.length implies spec_uses_alphabet(
                result@,
                #[trigger] spec_active_categories(*policy)[i],
            ) by {
            let k = choose|k: int|
                0 <= k < password_chars@.len() && #[trigger] cats[i].contains(password_chars@[k]);
            assert(result@[k] == password_chars@[k]);
        }
    }
    Ok(result)
}

pub const WARN_COMMON: &'static str = "this is an extremely common password";

pub const WARN_SHORTER_THAN_10: &'static str = "password is shorter than 10 characters";

pub const WARN_SHORTER_THAN_16: &'static str = "password is shorter than 16 characters";

pub const WARN_ONE_CLASS: &'static str =
    "password uses only one character class (mix cases, digits and symbols)";

/// Passwords that are refused outright as extremely common.
pub open spec fn spec_common_passwords() -> Seq<Seq<char>> {
    seq![
        "123456"@,
        "password"@,
        "123456789"@,
        "qwerty"@,
        "abc123"@,
        "111111"@,
        "12345678"@,
        "letmein"@,
        "iloveyou"@,
        "admin"@,
        "welcome"@,
    ]
}

/// Some character of `s` is an ASCII lower-case letter.
pub open spec fn spec_has_lower(s: Seq<char>) -> bool {
    exists|i: int| 0 <= i < s.len() && spec_is_ascii_lowercase(#[trigger] s[i])
}

/// Some character of `s` is an ASCII upper-case letter.
pub open spec fn spec_has_upper(s: Seq<char>) -> bool {
    exists|i: int| 0 <= i < s.len() && spec_is_ascii_uppercase(#[trigger] s[i])
}

/// Some character of `s` is an ASCII digit.
pub open spec fn spec_has_digit(s: Seq<char>) -> bool {
    exists|i: int| 0 <= i < s.len() && spec_is_ascii_digit(#[trigger] s[i])
}

/// Some character of `s` is not an ASCII letter or digit.
pub open spec fn spec_has_symbol(s: Seq<char>) -> bool {
    exists|i: int| 0 <= i < s.len() && !spec_is_ascii_alphanumeric(#[trigger] s[i])
}

/// The character class selected by `class`: 0 lower-case, 1 upper-case,
/// 2 digit, otherwise anything but an ASCII letter or digit.
pub open spec fn spec_in_class(c: char, class: u8) -> bool {
    if class == 0 {
        spec_is_ascii_lowercase(c)
    } else if class == 1 {
        spec_is_ascii_uppercase(c)
    } else if class == 2 {
        spec_is_ascii_digit(c)
    } else {
        !spec_is_ascii_alphanumeric(c)
    }
}

/// How many of the four classes (lower-case, upper-case, digit, other) occur.
pub open spec fn spec_variety(s: Seq<char>) -> nat {
    (if spec_has_lower(s) { 1nat } else { 0nat }) + (if spec_has_upper(s) { 1nat } else { 0nat })
        + (if spec_has_digit(s) { 1nat } else { 0nat }) + (if spec_has_symbol(s) { 1nat } else { 0nat })
}

/// The warnings for a password with characters `s` and UTF-8 length
/// `byte_len` (what `str::len` reports), in order: common password, length, single class.
pub open spec fn spec_feedback(s: Seq<char>, byte_len: nat) -> Seq<&'static str> {
    let w0: Seq<&'static str> = if spec_common_passwords().contains(s) {
        seq![WARN_COMMON]
    } else {
        seq![]
    };
    let w1: Seq<&'static str> = if byte_len < 10 {
        seq![WARN_SHORTER_THAN_10]
    } else if byte_len < 16 {
        seq![WARN_SHORTER_THAN_16]
    } else {
        seq![]
    };
    let w2: Seq<&'static str> = if spec_variety(s) < 2 {
        seq![WARN_ONE_CLASS]
    } else {
        seq![]
    };
    w0 + w1 + w2
}

/// Whether `password` is one of the common passwords.
fn is_common(password: &str) -> (b: bool)
    ensures
        b == spec_common_passwords().contains(password@),
{
    let common: [&str; 11] = [
        "123456",
        "password",
        "123456789",
        "qwerty",
        "abc123",
        "111111",
        "12345678",
        "letmein",
        "iloveyou",
        "admin",
        "welcome",
    ];
    let ghost views = spec_common_passwords();
    assert(forall|j: int| 0 <= j < 11 ==> #[trigger] common@[j]@ == views[j]);
    let mut i: usize = 0;
    while i < 11
        invariant
            i <= 11,
            views == spec_common_passwords(),
            forall|j: int| 0 <= j < 11 ==> #[trigger] common@[j]@ == views[j],
            forall|j: int| 0 <= j < i ==> views[j] != password@,
        decreases 11 - i,
    {
        if str_eq(common[i], password) {
            assert(views[i as int] == password@);
            return true;
        }
        i = i + 1;
    }
    false
}

/// Whether some character of `v` is in the class selected by `class`
/// (see [`spec_in_class`]).
fn any_in_class(v: &Vec<char>, class: u8) -> (b: bool)
    ensures
        b == exists|i: int| 0 <= i < v@.len() && spec_in_class(#[trigger] v@[i], class),
{
    let mut i: usize = 0;
    while i < v.len()
        invariant
            i <= v@.len(),
            forall|j: int| 0 <= j < i ==> !spec_in_class(#[trigger] v@[j], class),
        decreases v@.len() - i,
    {
        let c = v[i];
        let lower = 'a' <= c && c <= 'z';
        let upper = 'A' <= c && c <= 'Z';
        let digit = '0' <= c && c <= '9';
        let hit = if class == 0 {
            lower
        } else if class == 1 {
            upper
        } else if class == 2 {
            digit
        } else {
            !(lower || upper || digit)
        };
        if hit {
            assert(spec_in_class(v@[i as int], class));
            return true;
        }
        i = i + 1;
    }
    false
}

/// A small heuristic that flags weak passwords without any network access.
/// Returns a list of human-readable warnings (empty if the password looks ok).
pub fn password_feedback(password: &str) -> (r: Vec<&'static str>)
    ensures
        r@ == spec_feedback(password@, password.len() as nat),
{
    let mut warnings: Vec<&'static str> = Vec::new();
    let common = is_common(password);
    if common {
        warnings.push(WARN_COMMON);
    }
    let v = chars_of(password);
    let has_lower = any_in_class(&v, 0);
    let has_upper = any_in_class(&v, 1);
    let has_digit = any_in_class(&v, 2);
    let has_symbol = any_in_class(&v, 3);
    assert(has_lower == spec_has_lower(password@)) by {
        if has_lower {
            let i = choose|i: int| 0 <= i < v@.len() && spec_in_class(#[trigger] v@[i], 0);
            assert(spec_is_ascii_lowercase(password@[i]));
        }
    }
    assert(has_upper == spec_has_upper(password@)) by {
        if has_upper {
            let i = choose|i: int| 0 <= i < v@.len() && spec_in_class(#[trigger] v@[i], 1);
            assert(spec_is_ascii_uppercase(password@[i]));
        }
    }
    assert(has_digit == spec_has_digit(password@)) by {
        if has_digit {
            let i = choose|i: int| 0 <= i < v@.len() && spec_in_class(#[trigger] v@[i], 2);
            assert(spec_is_ascii_digit(password@[i]));
        }
    }
    assert(has_symbol == spec_has_symbol(password@)) by {
        if has_symbol {
            let i = choose|i: int| 0 <= i < v@.len() && spec_in_class(#[trigger] v@[i], 3);
            assert(!spec_is_ascii_alphanumeric(password@[i]));
        }
    }
    let mut variety: u8 = 0;
    if has_lower {
        variety = variety + 1;
    }
    if has_upper {
        variety = variety + 1;
    }
    if has_digit {
        variety = variety + 1;
    }
    if has_symbol {
        variety = variety + 1;
    }
    let len = password.len();
    if len < 10 {
        warnings.push(WARN_SHORTER_THAN_10);
    } else if len < 16 {
        warnings.push(WARN_SHORTER_THAN_16);
    }
    if variety < 2 {
        warnings.push(WARN_ONE_CLASS);
    }
    assert(variety == spec_variety(password@));
    assert(warnings@ =~= spec_feedback(password@, len as nat));
    warnings
}

} // verus!
