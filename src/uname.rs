//! Values reported by the `uname` command.
use vstd::prelude::*;

use crate::text::{opt_view, trim_end, trim_end_owned};

verus! {

/// The value in the output of `uname`: the output without trailing whitespace.
pub open spec fn spec_uname(output: Option<Seq<char>>) -> Option<Seq<char>> {
    match output {
        Some(o) => Some(trim_end(o)),
        None => None,
    }
}

/// The value in the output of `uname` with some flag; `output` is none where the command
/// could not be run or reported failure.
pub fn uname(output: Option<String>) -> (r: Option<String>)
    ensures
        opt_view(r) == spec_uname(opt_view(output)),
{
    match output {
        Some(o) => Some(trim_end_owned(o.as_str())),
        None => None,
    }
}

} // verus!
