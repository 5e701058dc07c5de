//! The AIX probe.
use vstd::prelude::*;

use crate::bitness::Bitness;
use crate::version::{spec_version_of, version_of};
use crate::info::{Info, SpecInfo};
use crate::os_type::Type;
use crate::text::{opt_view, same_text};
use crate::uname::{spec_uname, uname};

verus! {

/// The version string `major.minor` of AIX, from `uname -v` (the major version) and
/// `uname -r` (the minor version, `0` where absent); none without a major version.
pub open spec fn spec_version_text(major: Option<Seq<char>>, minor: Option<Seq<char>>) -> Option<Seq<char>> {
    match major {
        Some(a) => Some(a + "."@ + match minor {
            Some(b) => b,
            None => "0"@,
        }),
        None => None,
    }
}

/// The type that the output of `uname -o` names: AIX where it is exactly `AIX\n`.
pub open spec fn spec_os(os_output: Option<Seq<char>>) -> Type {
    if os_output == Some("AIX\n"@) {
        Type::AIX
    } else {
        Type::Unknown
    }
}

/// The version string of AIX; see `spec_version_text`.
pub fn get_version(major_output: Option<String>, minor_output: Option<String>) -> (r: Option<String>)
    ensures
        opt_view(r) == spec_version_text(spec_uname(opt_view(major_output)), spec_uname(opt_view(minor_output))),
{
    let mut major = match uname(major_output) {
        Some(a) => a,
        None => {
            return None;
        },
    };
    let minor = match uname(minor_output) {
        Some(b) => b,
        None => "0".to_owned(),
    };
    major.append(".");
    major.append(minor.as_str());
    Some(major)
}

/// The type that the output of `uname -o` names (none where it could not be run or is not
/// UTF-8); see `spec_os`.
pub fn get_os(os_output: Option<String>) -> (r: Type)
    ensures
        r == spec_os(opt_view(os_output)),
{
    match os_output {
        Some(o) => {
            if same_text(o.as_str(), "AIX\n") {
                Type::AIX
            } else {
                Type::Unknown
            }
        },
        None => Type::Unknown,
    }
}

/// Identifies AIX from the outputs of `uname -v`, `uname -r` and `uname -o` and the bitness.
pub fn current_platform(
    major_output: Option<String>,
    minor_output: Option<String>,
    os_output: Option<String>,
    bitness: Bitness,
) -> (r: Info)
    ensures
        r@ == (SpecInfo {
            os_type: spec_os(opt_view(os_output)),
            version: spec_version_of(
                spec_version_text(spec_uname(opt_view(major_output)), spec_uname(opt_view(minor_output))),
            ),
            bitness,
        }),
{
    Info::new(get_os(os_output), version_of(get_version(major_output, minor_output)), bitness)
}

} // verus!
