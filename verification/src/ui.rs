//! Tiny helpers for colored, consistent terminal output.
use crate::text::spec_contains;
use colored::Colorize;
use vstd::prelude::*;

verus! {

/// The ANSI reset sequence that ends a colored span.
pub open spec fn spec_reset() -> Seq<char> {
    "\u{1b}[0m"@
}

/// What a bold colored message looks like: either the message itself (when
/// coloring is off) or the message between the style's escape sequence and
/// the reset sequence.
pub open spec fn spec_painted(r: Seq<char>, msg: Seq<char>, style: Seq<char>) -> bool {
    r == msg || r == style + msg + spec_reset()
}

/// Calls colored 2 `msg.green().bold().to_string()`. Whether escape codes
/// are emitted depends on the environment (`NO_COLOR`, `CLICOLOR`, the
/// terminal), so either outcome is allowed; for a message that itself holds
/// a reset sequence colored rewrites the message, which is left unsaid here.
#[verifier::external_body]
fn green_bold(msg: &str) -> (r: String)
    ensures
        !spec_contains(msg@, spec_reset()) ==> spec_painted(r@, msg@, "\u{1b}[1;32m"@),
{
    msg.green().bold().to_string()
}

/// Calls colored 2 `msg.yellow().bold().to_string()`; see [`green_bold`].
#[verifier::external_body]
fn yellow_bold(msg: &str) -> (r: String)
    ensures
        !spec_contains(msg@, spec_reset()) ==> spec_painted(r@, msg@, "\u{1b}[1;33m"@),
{
    msg.yellow().bold().to_string()
}

/// Calls colored 2 `msg.red().bold().to_string()`; see [`green_bold`].
#[verifier::external_body]
fn red_bold(msg: &str) -> (r: String)
    ensures
        !spec_contains(msg@, spec_reset()) ==> spec_painted(r@, msg@, "\u{1b}[1;31m"@),
{
    msg.red().bold().to_string()
}

/// A success message: bold green.
pub fn success(msg: &str) -> (r: String)
    ensures
        !spec_contains(msg@, spec_reset()) ==> spec_painted(r@, msg@, "\u{1b}[1;32m"@),
{
    green_bold(msg)
}

/// A warning: bold yellow.
pub fn warn(msg: &str) -> (r: String)
    ensures
        !spec_contains(msg@, spec_reset()) ==> spec_painted(r@, msg@, "\u{1b}[1;33m"@),
{
    yellow_bold(msg)
}

/// An error or a destructive outcome: bold red.
pub fn error(msg: &str) -> (r: String)
    ensures
        !spec_contains(msg@, spec_reset()) ==> spec_painted(r@, msg@, "\u{1b}[1;31m"@),
{
    red_bold(msg)
}

} // verus!
