//! The version that the Windows `ver` command prints.
use vstd::prelude::*;

use crate::capture::{first_capture, regex_first_capture};
use crate::text::opt_view;

verus! {

/// The version number that `ver` reports.
pub struct WindowsVer {
    /// The `major.minor.build` number.
    pub version: Option<String>,
}

/// The expression whose first group is the version number in the output of `ver`.
pub open spec fn version_pattern() -> Seq<char> {
    "^Microsoft Windows \\[Version\\s(\\d+\\.\\d+\\.\\d+)\\]$"@
}

/// Reads the version number from the output of `ver`.
pub fn parse(output: &str) -> (r: WindowsVer)
    ensures
        opt_view(r.version) == regex_first_capture(version_pattern(), output@),
{
    let version = first_capture("^Microsoft Windows \\[Version\\s(\\d+\\.\\d+\\.\\d+)\\]$", output);
    WindowsVer { version }
}

} // verus!
