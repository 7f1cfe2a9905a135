//! Character-level string helpers with their specifications.
//!
//! Strings are viewed as sequences of Unicode scalar values (`s@`).
use vstd::prelude::*;

verus! {

broadcast use vstd::string::group_string_axioms;

/// The characters of `s`, in order.
pub fn chars_of(s: &str) -> (v: Vec<char>)
    ensures
        v@ == s@,
{
    let mut v: Vec<char> = Vec::new();
    for c in it: s.chars()
        invariant
            it.seq() == s@,
            v@ == s@.take(it.index() as int),
    {
        v.push(c);
    }
    assert(v@ =~= s@);
    v
}

/// Appends one character to a string (`String::push`).
#[verifier::external_body]
pub fn push_char(s: &mut String, c: char)
    ensures
        final(s)@ == old(s)@.push(c),
{
    s.push(c);
}

/// The text with its last character removed, if it has one.
pub open spec fn spec_pop(s: Seq<char>) -> Seq<char> {
    if s.len() > 0 {
        s.drop_last()
    } else {
        s
    }
}

/// Removes the last character of `s`, if any (`String::pop`).
pub fn pop_char(s: &mut String)
    ensures
        final(s)@ == spec_pop(old(s)@),
{
    let v = chars_of(s.as_str());
    if v.len() > 0 {
        *s = string_from_range(&v, 0, v.len() - 1);
        assert(v@.subrange(0, v@.len() - 1) =~= v@.drop_last());
    }
}

/// Moves the text out of `s`, leaving it empty (`std::mem::take`).
pub fn take_string(s: &mut String) -> (r: String)
    ensures
        r@ == old(s)@,
        final(s)@ == Seq::<char>::empty(),
{
    let mut out = String::new();
    std::mem::swap(&mut out, s);
    out
}

/// Overwrites the bytes of `s` with zeros and empties it (`Zeroize::zeroize`).
#[verifier::external_body]
pub fn wipe(s: &mut String)
    ensures
        final(s)@ == Seq::<char>::empty(),
{
    zeroize::Zeroize::zeroize(s);
}

/// The decimal digit for `d < 10`.
pub open spec fn spec_digit(d: nat) -> char {
    ((d + 48) as u8) as char
}

/// The decimal notation of `n`, without leading zeros.
pub open spec fn spec_decimal(n: nat) -> Seq<char>
    decreases n,
{
    if n < 10 {
        seq![spec_digit(n)]
    } else {
        spec_decimal(n / 10).push(spec_digit(n % 10))
    }
}

/// The decimal notation of `n`.
pub fn decimal(n: u64) -> (r: String)
    ensures
        r@ == spec_decimal(n as nat),
    decreases n,
{
    let d = (n % 10) as u8;
    if n < 10 {
        let mut r = String::new();
        push_char(&mut r, (d + 48) as char);
        assert(r@ =~= seq![spec_digit(n as nat)]);
        r
    } else {
        let mut r = decimal(n / 10);
        push_char(&mut r, (d + 48) as char);
        r
    }
}

/// A new string holding `v[start..end]`.
pub fn string_from_range(v: &Vec<char>, start: usize, end: usize) -> (r: String)
    requires
        start <= end <= v@.len(),
    ensures
        r@ == v@.subrange(start as int, end as int),
{
    let mut r = String::new();
    let mut i = start;
    while i < end
        invariant
            start <= i <= end <= v@.len(),
            r@ == v@.subrange(start as int, i as int),
        decreases end - i,
    {
        push_char(&mut r, v[i]);
        i = i + 1;
        assert(r@ =~= v@.subrange(start as int, i as int));
    }
    r
}

/// A new string holding all of `v`.
pub fn string_from_chars(v: &Vec<char>) -> (r: String)
    ensures
        r@ == v@,
{
    let r = string_from_range(v, 0, v.len());
    assert(v@.subrange(0, v@.len() as int) =~= v@);
    r
}

/// A new string with the same characters as `s`.
pub fn to_owned_string(s: &str) -> (r: String)
    ensures
        r@ == s@,
{
    let v = chars_of(s);
    string_from_chars(&v)
}

/// Unicode `White_Space` (what `char::is_whitespace` tests).
pub open spec fn spec_is_whitespace(c: char) -> bool {
    let u = c as u32;
    ||| 9 <= u <= 13
    ||| u == 32
    ||| u == 0x85
    ||| u == 0xA0
    ||| u == 0x1680
    ||| 0x2000 <= u <= 0x200A
    ||| u == 0x2028
    ||| u == 0x2029
    ||| u == 0x202F
    ||| u == 0x205F
    ||| u == 0x3000
}

/// Whether `c` is Unicode white space.
pub fn is_whitespace(c: char) -> (b: bool)
    ensures
        b == spec_is_whitespace(c),
{
    let u = c as u32;
    (9 <= u && u <= 13) || u == 32 || u == 0x85 || u == 0xA0 || u == 0x1680 || (0x2000 <= u && u
        <= 0x200A) || u == 0x2028 || u == 0x2029 || u == 0x202F || u == 0x205F || u == 0x3000
}

pub open spec fn spec_is_ascii_lowercase(c: char) -> bool {
    'a' <= c <= 'z'
}

pub open spec fn spec_is_ascii_uppercase(c: char) -> bool {
    'A' <= c <= 'Z'
}

pub open spec fn spec_is_ascii_digit(c: char) -> bool {
    '0' <= c <= '9'
}

pub open spec fn spec_is_ascii_alphanumeric(c: char) -> bool {
    spec_is_ascii_lowercase(c) || spec_is_ascii_uppercase(c) || spec_is_ascii_digit(c)
}

/// `c` with an ASCII upper-case letter mapped to its lower-case form.
pub open spec fn spec_ascii_lower(c: char) -> char {
    if spec_is_ascii_uppercase(c) {
        ((c as u32) + 32) as char
    } else {
        c
    }
}

/// ASCII lower-casing of one character (`char::to_ascii_lowercase`).
pub fn ascii_lower(c: char) -> (r: char)
    ensures
        r == spec_ascii_lower(c),
{
    if 'A' <= c && c <= 'Z' {
        let u = (c as u32) + 32;
        assert(0x61 <= u <= 0x7a);
        char_from_ascii(u)
    } else {
        c
    }
}

/// The character with ASCII code `u`.
fn char_from_ascii(u: u32) -> (c: char)
    requires
        u < 128,
    ensures
        c == u as char,
{
    let b = u as u8;
    b as char
}

/// Drops leading white space.
pub open spec fn spec_trim_start(s: Seq<char>) -> Seq<char>
    decreases s.len(),
{
    if s.len() > 0 && spec_is_whitespace(s[0]) {
        spec_trim_start(s.drop_first())
    } else {
        s
    }
}

/// Drops trailing white space.
pub open spec fn spec_trim_end(s: Seq<char>) -> Seq<char>
    decreases s.len(),
{
    if s.len() > 0 && spec_is_whitespace(s.last()) {
        spec_trim_end(s.drop_last())
    } else {
        s
    }
}

/// Drops leading and trailing white space (`str::trim`).
pub open spec fn spec_trim(s: Seq<char>) -> Seq<char> {
    spec_trim_end(spec_trim_start(s))
}

/// `s` with leading and trailing white space removed.
pub fn trim(s: &str) -> (r: String)
    ensures
        r@ == spec_trim(s@),
{
    let v = chars_of(s);
    let n = v.len();
    let mut i: usize = 0;
    assert(v@.subrange(0, n as int) =~= v@);
    while i < n && is_whitespace(v[i])
        invariant
            i <= n,
            n == v@.len(),
            spec_trim_start(v@) == spec_trim_start(v@.subrange(i as int, n as int)),
        decreases n - i,
    {
        assert(v@.subrange(i as int, n as int).drop_first() =~= v@.subrange(i + 1, n as int));
        i = i + 1;
    }
    assert(spec_trim_start(v@) == v@.subrange(i as int, n as int));
    let mut j: usize = n;
    while j > i && is_whitespace(v[j - 1])
        invariant
            i <= j <= n,
            n == v@.len(),
            spec_trim_end(v@.subrange(i as int, n as int)) == spec_trim_end(
                v@.subrange(i as int, j as int),
            ),
        decreases j,
    {
        assert(v@.subrange(i as int, j as int).drop_last() =~= v@.subrange(i as int, j - 1));
        j = j - 1;
    }
    assert(spec_trim_end(v@.subrange(i as int, j as int)) == v@.subrange(i as int, j as int));
    string_from_range(&v, i, j)
}

/// The Unicode lower-case mapping of `s`, as `str::to_lowercase` computes it.
pub uninterp spec fn spec_to_lowercase(s: Seq<char>) -> Seq<char>;

/// Calls `str::to_lowercase`; the result is the named Unicode lower-case
/// mapping, a function of the input alone, and the lower case of the empty
/// string is empty.
#[verifier::external_body]
pub fn to_lowercase(s: &str) -> (r: String)
    ensures
        r@ == spec_to_lowercase(s@),
        s@.len() == 0 ==> r@.len() == 0,
{
    s.to_lowercase()
}

/// `needle` occurs in `hay` at position `i`.
pub open spec fn spec_occurs_at(hay: Seq<char>, needle: Seq<char>, i: int) -> bool {
    0 <= i && i + needle.len() <= hay.len() && hay.subrange(i, i + needle.len()) == needle
}

/// `needle` occurs somewhere in `hay` (`str::contains`; the empty string
/// occurs everywhere).
pub open spec fn spec_contains(hay: Seq<char>, needle: Seq<char>) -> bool {
    exists|i: int| #[trigger] spec_occurs_at(hay, needle, i)
}

/// Whether `needle` occurs at position `i` of `hay`.
fn occurs_at(hay: &Vec<char>, needle: &Vec<char>, i: usize) -> (b: bool)
    requires
        i + needle@.len() <= hay@.len(),
    ensures
        b == spec_occurs_at(hay@, needle@, i as int),
{
    let mut k: usize = 0;
    while k < needle.len()
        invariant
            k <= needle@.len(),
            i + needle@.len() <= hay@.len(),
            hay@.len() == hay.len(),
            forall|m: int| 0 <= m < k ==> hay@[i + m] == needle@[m],
        decreases needle@.len() - k,
    {
        if hay[i + k] != needle[k] {
            assert(hay@.subrange(i as int, i + needle@.len())[k as int] != needle@[k as int]);
            return false;
        }
        k = k + 1;
    }
    assert(hay@.subrange(i as int, i + needle@.len()) =~= needle@);
    true
}

/// Whether `needle` occurs in `hay`.
pub fn contains_chars(hay: &Vec<char>, needle: &Vec<char>) -> (b: bool)
    ensures
        b == spec_contains(hay@, needle@),
{
    if needle.len() > hay.len() {
        assert forall|i: int| !#[trigger] spec_occurs_at(hay@, needle@, i) by {}
        return false;
    }
    let last = hay.len() - needle.len();
    let mut i: usize = 0;
    loop
        invariant
            i <= last,
            last + needle@.len() == hay@.len(),
            forall|j: int| 0 <= j < i ==> !#[trigger] spec_occurs_at(hay@, needle@, j),
        decreases last - i,
    {
        if occurs_at(hay, needle, i) {
            return true;
        }
        if i == last {
            assert forall|j: int| !#[trigger] spec_occurs_at(hay@, needle@, j) by {}
            return false;
        }
        i = i + 1;
    }
}

/// Whether `needle` occurs in `hay`.
pub fn contains(hay: &str, needle: &str) -> (b: bool)
    ensures
        b == spec_contains(hay@, needle@),
{
    let h = chars_of(hay);
    let n = chars_of(needle);
    contains_chars(&h, &n)
}

/// `a` and `b` are equal up to ASCII case (`str::eq_ignore_ascii_case`).
pub open spec fn spec_eq_ignore_ascii_case(a: Seq<char>, b: Seq<char>) -> bool {
    a.len() == b.len() && forall|i: int|
        0 <= i < a.len() ==> spec_ascii_lower(#[trigger] a[i]) == spec_ascii_lower(b[i])
}

/// Whether `a` and `b` are equal up to ASCII case.
pub fn eq_ignore_ascii_case(a: &str, b: &str) -> (r: bool)
    ensures
        r == spec_eq_ignore_ascii_case(a@, b@),
{
    let x = chars_of(a);
    let y = chars_of(b);
    if x.len() != y.len() {
        return false;
    }
    let mut i: usize = 0;
    while i < x.len()
        invariant
            x@.len() == y@.len(),
            x@ == a@,
            y@ == b@,
            forall|k: int| 0 <= k < i ==> spec_ascii_lower(#[trigger] x@[k]) == spec_ascii_lower(
                y@[k],
            ),
        decreases x@.len() - i,
    {
        if ascii_lower(x[i]) != ascii_lower(y[i]) {
            return false;
        }
        i = i + 1;
    }
    true
}

/// `prefix` is a prefix of `s`.
pub open spec fn spec_starts_with(s: Seq<char>, prefix: Seq<char>) -> bool {
    prefix.len() <= s.len() && s.subrange(0, prefix.len() as int) == prefix
}

/// Whether `s` starts with `prefix` (`str::starts_with`).
pub fn starts_with(s: &str, prefix: &str) -> (b: bool)
    ensures
        b == spec_starts_with(s@, prefix@),
{
    let x = chars_of(s);
    let p = chars_of(prefix);
    if p.len() > x.len() {
        return false;
    }
    let r = occurs_at(&x, &p, 0);
    r
}

/// Whether two strings have the same characters.
pub fn str_eq(a: &str, b: &str) -> (r: bool)
    ensures
        r == (a@ == b@),
{
    let x = chars_of(a);
    let y = chars_of(b);
    if x.len() != y.len() {
        return false;
    }
    let r = occurs_at(&x, &y, 0);
    assert(x@.subrange(0, y@.len() as int) =~= x@);
    r
}

/// Left-to-right scan of `s` into whitespace-separated words: the words
/// completed so far and the word being read.
pub open spec fn spec_scan_words(s: Seq<char>) -> (Seq<Seq<char>>, Seq<char>)
    decreases s.len(),
{
    if s.len() == 0 {
        (Seq::empty(), Seq::empty())
    } else {
        let (done, cur) = spec_scan_words(s.drop_last());
        let c = s.last();
        if spec_is_whitespace(c) {
            if cur.len() > 0 {
                (done.push(cur), Seq::empty())
            } else {
                (done, cur)
            }
        } else {
            (done, cur.push(c))
        }
    }
}

/// The whitespace-separated words of `s` (`str::split_whitespace`).
pub open spec fn spec_words(s: Seq<char>) -> Seq<Seq<char>> {
    let (done, cur) = spec_scan_words(s);
    if cur.len() > 0 {
        done.push(cur)
    } else {
        done
    }
}

/// The views of a list of strings.
pub open spec fn spec_views(v: Seq<String>) -> Seq<Seq<char>> {
    v.map_values(|s: String| s@)
}

/// The text of an optional field, empty when absent.
pub open spec fn spec_or_empty(o: Option<Seq<char>>) -> Seq<char> {
    match o {
        Some(t) => t,
        None => Seq::empty(),
    }
}

/// Appends a string to a list, tracking the views.
fn push_string(list: &mut Vec<String>, s: String)
    ensures
        spec_views(final(list)@) == spec_views(old(list)@).push(s@),
{
    list.push(s);
    assert(spec_views(final(list)@) =~= spec_views(old(list)@).push(s@));
}

/// The whitespace-separated words of `s`.
pub fn split_whitespace(s: &str) -> (r: Vec<String>)
    ensures
        spec_views(r@) == spec_words(s@),
{
    let v = chars_of(s);
    let mut done: Vec<String> = Vec::new();
    let mut cur: Vec<char> = Vec::new();
    let mut i: usize = 0;
    assert(spec_views(done@) =~= Seq::<Seq<char>>::empty());
    assert(v@.take(0) =~= Seq::<char>::empty());
    while i < v.len()
        invariant
            i <= v@.len(),
            v@ == s@,
            (spec_views(done@), cur@) == spec_scan_words(v@.take(i as int)),
        decreases v@.len() - i,
    {
        let c = v[i];
        proof {
            assert(v@.take(i + 1).drop_last() =~= v@.take(i as int));
            assert(v@.take(i + 1).last() == c);
        }
        if is_whitespace(c) {
            if cur.len() > 0 {
                let w = string_from_chars(&cur);
                push_string(&mut done, w);
                cur = Vec::new();
                assert(cur@ =~= Seq::<char>::empty());
            }
        } else {
            cur.push(c);
        }
        i = i + 1;
    }
    assert(v@.take(v@.len() as int) =~= v@);
    if cur.len() > 0 {
        let w = string_from_chars(&cur);
        push_string(&mut done, w);
    }
    done
}

/// The words joined with single spaces (`[&str]::join(" ")`).
pub open spec fn spec_join_words(ws: Seq<Seq<char>>) -> Seq<char>
    decreases ws.len(),
{
    if ws.len() == 0 {
        Seq::empty()
    } else if ws.len() == 1 {
        ws[0]
    } else {
        spec_join_words(ws.drop_last()) + seq![' '] + ws.last()
    }
}

/// `words[start..]` joined with single spaces.
pub fn join_words(words: &Vec<String>, start: usize) -> (r: String)
    requires
        start <= words@.len(),
    ensures
        r@ == spec_join_words(spec_views(words@).subrange(start as int, words@.len() as int)),
{
    let ghost ws = spec_views(words@).subrange(start as int, words@.len() as int);
    let mut r = String::new();
    let mut i = start;
    while i < words.len()
        invariant
            start <= i <= words@.len(),
            ws == spec_views(words@).subrange(start as int, words@.len() as int),
            r@ == spec_join_words(ws.take(i - start)),
        decreases words@.len() - i,
    {
        proof {
            assert(ws.take(i + 1 - start).drop_last() =~= ws.take(i - start));
            assert(ws.take(i + 1 - start).last() == words@[i as int]@);
        }
        if i > start {
            r.append(" ");
            assert(" "@ =~= seq![' ']) by {
                reveal_strlit(" ");
            }
        }
        r.append(words[i].as_str());
        proof {
            if i == start {
                assert(ws.take(1) =~= seq![words@[i as int]@]);
            }
        }
        i = i + 1;
    }
    assert(ws.take(words@.len() - start) =~= ws);
    r
}

/// The numeric value of a string of decimal digits.
pub open spec fn spec_digits_value(d: Seq<char>) -> nat
    decreases d.len(),
{
    if d.len() == 0 {
        0
    } else {
        spec_digits_value(d.drop_last()) * 10 + ((d.last() as nat) - ('0' as nat)) as nat
    }
}

/// Every character is an ASCII digit.
pub open spec fn spec_all_digits(d: Seq<char>) -> bool {
    forall|i: int| 0 <= i < d.len() ==> spec_is_ascii_digit(#[trigger] d[i])
}

/// `usize::from_str`: an optional `+`, then at least one ASCII digit, and a
/// value that fits.
pub open spec fn spec_parse_usize(s: Seq<char>) -> Option<usize> {
    let d = if s.len() > 0 && s[0] == '+' {
        s.drop_first()
    } else {
        s
    };
    if d.len() == 0 || !spec_all_digits(d) || spec_digits_value(d) > usize::MAX {
        None
    } else {
        Some(spec_digits_value(d) as usize)
    }
}

/// A longer digit string never has a smaller value.
proof fn lemma_digits_value_monotone(d: Seq<char>, i: int)
    requires
        0 <= i <= d.len(),
        spec_all_digits(d),
    ensures
        spec_digits_value(d.take(i)) <= spec_digits_value(d),
    decreases d.len() - i,
{
    if i < d.len() {
        lemma_digits_value_monotone(d, i + 1);
        assert(d.take(i + 1).drop_last() =~= d.take(i));
        assert(spec_is_ascii_digit(d[i]));
    } else {
        assert(d.take(i) =~= d);
    }
}

/// Parses a decimal `usize` as `str::parse::<usize>` does.
pub fn parse_usize(s: &str) -> (r: Option<usize>)
    ensures
        r == spec_parse_usize(s@),
{
    let v = chars_of(s);
    let start: usize = if v.len() > 0 && v[0] == '+' {
        1
    } else {
        0
    };
    let ghost d = if s@.len() > 0 && s@[0] == '+' {
        s@.drop_first()
    } else {
        s@
    };
    assert(d =~= v@.subrange(start as int, v@.len() as int));
    if start == v.len() {
        return None;
    }
    let mut value: usize = 0;
    let mut i = start;
    while i < v.len()
        invariant
            start <= i <= v@.len(),
            v@ == s@,
            d == v@.subrange(start as int, v@.len() as int),
            d == (if s@.len() > 0 && s@[0] == '+' {
                s@.drop_first()
            } else {
                s@
            }),
            d.len() > 0,
            spec_all_digits(d.take(i - start)),
            value == spec_digits_value(d.take(i - start)),
        decreases v@.len() - i,
    {
        let c = v[i];
        proof {
            assert(d.take(i + 1 - start).drop_last() =~= d.take(i - start));
            assert(d.take(i + 1 - start).last() == c);
        }
        if !('0' <= c && c <= '9') {
            assert(d[i - start] == c);
            assert(!spec_is_ascii_digit(d[i - start]));
            assert(!spec_all_digits(d));
            return None;
        }
        let digit = (c as u32 - '0' as u32) as usize;
        if value > (usize::MAX - digit) / 10 {
            proof {
                let t = d.take(i + 1 - start);
                assert(t.last() == c);
                assert(t.drop_last() =~= d.take(i - start));
                assert(spec_digits_value(t) == spec_digits_value(t.drop_last()) * 10 + ((c as nat)
                    - ('0' as nat)) as nat);
                assert(spec_all_digits(d.take(i + 1 - start)));
                assert(spec_digits_value(d.take(i + 1 - start)) > usize::MAX) by (nonlinear_arith)
                    requires
                        spec_digits_value(d.take(i + 1 - start)) == value * 10 + digit,
                        value > (usize::MAX - digit) / 10,
                        digit <= 9,
                ;
                if spec_all_digits(d) {
                    lemma_digits_value_monotone(d, i + 1 - start);
                    assert(spec_digits_value(d) > usize::MAX);
                }
            }
            return None;
        }
        assert(value * 10 + digit <= usize::MAX) by (nonlinear_arith)
            requires
                value <= (usize::MAX - digit) / 10,
                digit <= 9,
        ;
        value = value * 10 + digit;
        i = i + 1;
    }
    assert(d.take(v@.len() - start) =~= d);
    Some(value)
}

} // verus!
