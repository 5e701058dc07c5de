//! The iOS probe.
use vstd::prelude::*;

use crate::bitness::Bitness;
use crate::version::{spec_version_of, version_of};
use crate::info::{Info, SpecInfo};
use crate::os_type::Type;
use crate::text::{opt_view, same_text};

verus! {

/// The bitness of the target architecture (`std::env::consts::ARCH`).
pub open spec fn spec_arch_bitness(arch: Seq<char>) -> Bitness {
    if arch == "x86"@ || arch == "arm"@ {
        Bitness::X32
    } else if arch == "x86_64"@ || arch == "aarch64"@ {
        Bitness::X64
    } else {
        Bitness::Unknown
    }
}

/// The bitness of the target architecture; see `spec_arch_bitness`.
pub fn arch_bitness(arch: &str) -> (r: Bitness)
    ensures
        r == spec_arch_bitness(arch@),
{
    if same_text(arch, "x86") || same_text(arch, "arm") {
        Bitness::X32
    } else if same_text(arch, "x86_64") || same_text(arch, "aarch64") {
        Bitness::X64
    } else {
        Bitness::Unknown
    }
}

/// Identifies iOS from the system version that `UIDevice` reports (none where it reports
/// none) and the target architecture.
pub fn current_platform(system_version: Option<String>, arch: &str) -> (r: Info)
    ensures
        r@ == (SpecInfo {
            os_type: Type::Ios,
            version: spec_version_of(opt_view(system_version)),
            bitness: spec_arch_bitness(arch@),
        }),
{
    Info::new(Type::Ios, version_of(system_version), arch_bitness(arch))
}

} // verus!
