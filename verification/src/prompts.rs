//! Abstraction over interactive input, so that the command handlers can be
//! driven by a real terminal, by piped stdin or by a test harness.
use crate::text::{
    chars_of, eq_ignore_ascii_case, spec_ascii_lower, spec_eq_ignore_ascii_case,
    spec_is_ascii_uppercase,
};
use vstd::prelude::*;

verus! {

/// An answer to a yes/no question means "yes" when it starts with `y` or
/// `Y`.
pub open spec fn spec_is_yes(answer: Seq<char>) -> bool {
    answer.len() > 0 && (answer[0] == 'y' || answer[0] == 'Y')
}

/// Whether an answer to a yes/no question means "yes".
pub fn answer_is_yes(answer: &str) -> (b: bool)
    ensures
        b == spec_is_yes(answer@),
{
    let chars = chars_of(answer);
    chars.len() > 0 && (chars[0] == 'y' || chars[0] == 'Y')
}

/// An answer is exactly `y`, in either case: what the deletion and
/// generate-a-password questions accept.
pub open spec fn spec_is_y(answer: Seq<char>) -> bool {
    spec_eq_ignore_ascii_case(answer, "y"@)
}

/// Whether an answer is exactly `y` or `Y`.
pub fn answer_is_y(answer: &str) -> (b: bool)
    ensures
        b == spec_is_y(answer@),
{
    eq_ignore_ascii_case(answer, "y")
}

/// The deletion and generate-a-password questions accept exactly the
/// one-letter answers `y` and `Y`; anything else, the empty answer included,
/// declines.
pub proof fn lemma_only_y_accepts(answer: Seq<char>)
    ensures
        spec_is_y(answer) <==> (answer == seq!['y'] || answer == seq!['Y']),
{
    reveal_strlit("y");
    if spec_is_y(answer) {
        assert(answer.len() == 1);
        assert(spec_ascii_lower(answer[0]) == spec_ascii_lower('y'));
        if spec_is_ascii_uppercase(answer[0]) {
            assert((answer[0] as u32) + 32 == 'y' as u32);
            assert(answer[0] as u32 == 'Y' as u32);
        }
        assert(answer[0] == 'y' || answer[0] == 'Y');
        assert(answer =~= seq![answer[0]]);
    }
    if answer == seq!['Y'] {
        assert(spec_ascii_lower('Y') == 'y');
    }
}

/// A yes/no question is answered "yes" exactly by the answers that start
/// with `y` or `Y`; the empty answer means "no".
pub proof fn lemma_yes_means_starting_with_y(answer: Seq<char>)
    ensures
        spec_is_yes(answer) <==> (answer.len() > 0 && (answer[0] == 'y' || answer[0] == 'Y')),
        answer.len() == 0 ==> !spec_is_yes(answer),
{
}

/// An empty answer means "no value".
pub fn optional_answer(value: String) -> (r: Option<String>)
    ensures
        value@.len() == 0 ==> r is None,
        value@.len() > 0 ==> (r matches Some(v) && v@ == value@),
{
    if value.as_str().is_empty() {
        None
    } else {
        Some(value)
    }
}

/// The answer to a yes/no prompt, from what reading the line gave: whether
/// the line means "yes", or the read error unchanged.
pub fn yes_no_from(read: std::io::Result<String>) -> (r: std::io::Result<bool>)
    ensures
        read matches Ok(a) ==> r == Ok::<bool, std::io::Error>(spec_is_yes(a@)),
        read matches Err(e) ==> (r matches Err(e2) && e2 == e),
{
    match read {
        Ok(answer) => Ok(answer_is_yes(answer.as_str())),
        Err(e) => Err(e),
    }
}

/// The answer to an optional prompt, from what reading the line gave: `None`
/// for an empty line, else the line; or the read error unchanged.
pub fn optional_from(read: std::io::Result<String>) -> (r: std::io::Result<Option<String>>)
    ensures
        read matches Ok(a) ==> (r matches Ok(o) && (a@.len() == 0 ==> o is None) && (a@.len() > 0
            ==> (o matches Some(v) && v@ == a@))),
        read matches Err(e) ==> (r matches Err(e2) && e2 == e),
{
    match read {
        Ok(value) => Ok(optional_answer(value)),
        Err(e) => Err(e),
    }
}

/// `a` is what reading a line at the prompt `prompt` can give when the
/// input source is in the state `s`.
pub open spec fn spec_reads_line<I: InputSource>(s: I, prompt: Seq<char>, a: std::io::Result<String>) -> bool {
    exists|x: &mut I, p: &str|
        #![trigger call_ensures(I::read_line, (x, p), a)]
        *x == s && p@ == prompt && call_ensures(I::read_line, (x, p), a)
}

/// `a` is what reading a secret at the prompt `prompt` can give when the
/// input source is in the state `s`.
pub open spec fn spec_reads_password<I: InputSource>(s: I, prompt: Seq<char>, a: std::io::Result<String>) -> bool {
    exists|x: &mut I, p: &str|
        #![trigger call_ensures(I::read_password, (x, p), a)]
        *x == s && p@ == prompt && call_ensures(I::read_password, (x, p), a)
}

/// Reads a line from `input`.
pub fn read_line_of<I: InputSource>(input: &mut I, prompt: &str) -> (r: std::io::Result<String>)
    ensures
        spec_reads_line(*old(input), prompt@, r),
{
    let f = I::read_line;
    f(input, prompt)
}

/// Reads a secret from `input`.
pub fn read_password_of<I: InputSource>(input: &mut I, prompt: &str) -> (r: std::io::Result<String>)
    ensures
        spec_reads_password(*old(input), prompt@, r),
{
    let f = I::read_password;
    f(input, prompt)
}

/// A source of interactive input for the handlers.
pub trait InputSource {
    /// Reads a line of text (echoed), trimming trailing whitespace.
    fn read_line(&mut self, prompt: &str) -> std::io::Result<String>;

    /// Reads a secret (hidden echo) such as a password.
    fn read_password(&mut self, prompt: &str) -> std::io::Result<String>;

    /// Reads a line and returns whether the answer starts with `y`/`Y`.
    fn prompt_yes_no(&mut self, prompt: &str) -> (r: std::io::Result<bool>) {
        yes_no_from(self.read_line(prompt))
    }

    /// Reads a line, mapping an empty answer to `None`.
    fn prompt_optional_line(&mut self, prompt: &str) -> (r: std::io::Result<Option<String>>)
        ensures
            r matches Ok(Some(v)) ==> v@.len() > 0,
    {
        optional_from(self.read_line(prompt))
    }
}

} // verus!
