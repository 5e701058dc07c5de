//! The illumos probe.
use vstd::prelude::*;

use crate::bitness::Bitness;
use crate::version::{spec_version_of, version_of};
use crate::info::{Info, SpecInfo};
use crate::os_type::Type;
use crate::text::{opt_view, same_text};
use crate::uname::{spec_uname, uname};

verus! {

/// The type that `uname -o` names: illumos, or unknown.
pub open spec fn spec_os(os_value: Option<Seq<char>>) -> Type {
    if os_value == Some("illumos"@) {
        Type::Illumos
    } else {
        Type::Unknown
    }
}

/// The type that the output of `uname -o` names; see `spec_os`.
pub fn get_os(os_output: Option<String>) -> (r: Type)
    ensures
        r == spec_os(spec_uname(opt_view(os_output))),
{
    match uname(os_output) {
        Some(o) => {
            if same_text(o.as_str(), "illumos") {
                Type::Illumos
            } else {
                Type::Unknown
            }
        },
        None => Type::Unknown,
    }
}

/// Identifies illumos from the outputs of `uname -v` and `uname -o` (none where they could not
/// be run) and the bitness.
pub fn current_platform(version_output: Option<String>, os_output: Option<String>, bitness: Bitness) -> (r:
    Info)
    ensures
        r@ == (SpecInfo {
            os_type: spec_os(spec_uname(opt_view(os_output))),
            version: spec_version_of(spec_uname(opt_view(version_output))),
            bitness,
        }),
{
    Info::new(get_os(os_output), version_of(uname(version_output)), bitness)
}

} // verus!
