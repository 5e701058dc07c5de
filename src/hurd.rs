//! The GNU/Hurd probe.
use vstd::prelude::*;

use crate::bitness::Bitness;
use crate::info::{Info, SpecInfo};
use crate::os_type::Type;
use crate::text::opt_view;
use crate::uname::{spec_uname, uname};
use crate::version::{spec_version_of, version_of};

verus! {

/// Identifies GNU/Hurd from the output of `uname -r` (none where it could not be run) and the
/// bitness.
pub fn current_platform(release_output: Option<String>, bitness: Bitness) -> (r: Info)
    ensures
        r@ == (SpecInfo {
            os_type: Type::Hurd,
            version: spec_version_of(spec_uname(opt_view(release_output))),
            bitness,
        }),
{
    Info::new(Type::Hurd, version_of(uname(release_output)), bitness)
}

} // verus!
