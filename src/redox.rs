//! The Redox probe.
use vstd::prelude::*;

use crate::bitness::Bitness;
use crate::info::{unknown_version, Info, SpecInfo};
use crate::os_type::Type;
use crate::text::opt_view;
use crate::version::{SpecVersion, SpecVersionType, Version};

verus! {

/// Identifies Redox from the content of `sys:uname` (none where it could not be read), taken
/// whole as a custom version.
pub fn current_platform(uname: Option<String>) -> (r: Info)
    ensures
        r@ == (SpecInfo {
            os_type: Type::Redox,
            version: match opt_view(uname) {
                Some(v) => SpecVersion { version: SpecVersionType::Custom(v), edition: None, codename: None },
                None => unknown_version(),
            },
            bitness: Bitness::Unknown,
        }),
{
    let version = match uname {
        Some(v) => Version::custom(v, None, None),
        None => Version::unknown(),
    };
    Info::new(Type::Redox, version, Bitness::Unknown)
}

} // verus!
