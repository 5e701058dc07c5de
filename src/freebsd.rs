//! The probe of FreeBSD and the systems derived from it.
use vstd::prelude::*;

use crate::bitness::Bitness;
use crate::version::{spec_version_of, version_of};
use crate::info::{Info, SpecInfo};
use crate::os_type::Type;
use crate::text::{opt_view, same_text};
use crate::uname::{spec_uname, uname};

verus! {

/// The type that `uname -s` names: MidnightBSD; FreeBSD, or HardenedBSD where the
/// `hardening.version` sysctl wrote exactly `0\n` to its error output; unknown otherwise.
pub open spec fn spec_os(system: Option<Seq<char>>, hardening_stderr: Option<Seq<char>>) -> Type {
    match system {
        Some(s) => if s == "MidnightBSD"@ {
            Type::MidnightBSD
        } else if s == "FreeBSD"@ {
            if hardening_stderr == Some("0\n"@) {
                Type::HardenedBSD
            } else {
                Type::FreeBSD
            }
        } else {
            Type::Unknown
        },
        None => Type::Unknown,
    }
}

/// The type that the output of `uname -s` and the error output of
/// `/sbin/sysctl hardening.version` name (each none where it could not be had); see
/// `spec_os`.
pub fn get_os(system_output: Option<String>, hardening_stderr: Option<String>) -> (r: Type)
    ensures
        r == spec_os(spec_uname(opt_view(system_output)), opt_view(hardening_stderr)),
{
    match uname(system_output) {
        Some(s) => {
            if same_text(s.as_str(), "MidnightBSD") {
                Type::MidnightBSD
            } else if same_text(s.as_str(), "FreeBSD") {
                match hardening_stderr {
                    Some(e) => {
                        if same_text(e.as_str(), "0\n") {
                            Type::HardenedBSD
                        } else {
                            Type::FreeBSD
                        }
                    },
                    None => Type::FreeBSD,
                }
            } else {
                Type::Unknown
            }
        },
        None => Type::Unknown,
    }
}

/// Identifies a FreeBSD family system from the outputs of `uname -s` and `uname -r`, the
/// error output of the hardening sysctl, and the bitness.
pub fn current_platform(
    system_output: Option<String>,
    release_output: Option<String>,
    hardening_stderr: Option<String>,
    bitness: Bitness,
) -> (r: Info)
    ensures
        r@ == (SpecInfo {
            os_type: spec_os(spec_uname(opt_view(system_output)), opt_view(hardening_stderr)),
            version: spec_version_of(spec_uname(opt_view(release_output))),
            bitness,
        }),
{
    Info::new(get_os(system_output, hardening_stderr), version_of(uname(release_output)), bitness)
}

} // verus!
