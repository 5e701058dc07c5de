//! Regular-expression captures, through the `regex` crate.
use vstd::prelude::*;

use crate::text::opt_view;

verus! {

/// The text of capture group 1 in the leftmost-first match of regular expression `pattern`
/// in `text`; none where the pattern is not a valid expression, where nothing matches, or
/// where group 1 takes no part in the match.
pub uninterp spec fn regex_first_capture(pattern: Seq<char>, text: Seq<char>) -> Option<Seq<char>>;

/// Relies on `regex::Regex::new`, `Regex::captures` and `Captures::get`: compiles `pattern`
/// and returns group 1 of the leftmost-first match in `text`, which depends on the two
/// strings alone.
#[verifier::external_body]
pub(crate) fn first_capture(pattern: &str, text: &str) -> (r: Option<String>)
    ensures
        opt_view(r) == regex_first_capture(pattern@, text@),
{
    let re = regex::Regex::new(pattern).ok()?;
    let caps = re.captures(text)?;
    caps.get(1).map(|m| m.as_str().to_owned())
}

} // verus!
