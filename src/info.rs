//! The identification record: type, version and bitness of an operating system.
use vstd::prelude::*;

use crate::bitness::{bitness_name, Bitness};
use crate::os_type::os_type_label;
use crate::version::version_text;
use crate::os_type::Type;
use crate::version::{SpecVersion, SpecVersionType, Version};

verus! {

/// Holds information about operating system (type, version, etc.).
#[derive(Debug, Clone, PartialEq, Eq, PartialOrd, Ord, Hash)]
pub struct Info {
    /// Operating system type. See `Type` for details.
    pub(crate) os_type: Type,
    /// Operating system version. See `Version` for details.
    pub(crate) version: Version,
    /// Operating system architecture in terms of how many bits compose the basic values it can
    /// deal with. See `Bitness` for details.
    pub(crate) bitness: Bitness,
}

/// The mathematical value of an `Info`.
pub struct SpecInfo {
    pub os_type: Type,
    pub version: SpecVersion,
    pub bitness: Bitness,
}

impl View for Info {
    type V = SpecInfo;

    closed spec fn view(&self) -> SpecInfo {
        SpecInfo { os_type: self.os_type, version: self.version@, bitness: self.bitness }
    }
}

/// The record of a version that nothing is known of.
pub open spec fn unknown_version() -> SpecVersion {
    SpecVersion { version: SpecVersionType::Unknown, edition: None, codename: None }
}

/// The record of an operating system that nothing is known of.
pub open spec fn unknown_info() -> SpecInfo {
    SpecInfo { os_type: Type::Unknown, version: unknown_version(), bitness: Bitness::Unknown }
}

/// The record of an operating system of which only the type is known.
pub open spec fn info_of_type(os_type: Type) -> SpecInfo {
    SpecInfo { os_type, version: unknown_version(), bitness: Bitness::Unknown }
}

/// `i` with its bitness replaced by `bitness`.
pub open spec fn with_bitness(i: SpecInfo, bitness: Bitness) -> SpecInfo {
    SpecInfo { os_type: i.os_type, version: i.version, bitness }
}

/// How a record is displayed: `type (version) [bitness]`.
pub open spec fn info_text(i: SpecInfo) -> Seq<char> {
    os_type_label(i.os_type) + " ("@ + version_text(i.version) + ") ["@ + bitness_name(i.bitness)
        + "]"@
}

impl Info {
    /// The display text of this record; see `info_text`.
    pub fn to_string(&self) -> (r: String)
        ensures
            r@ == info_text(self@),
    {
        let mut s = self.os_type.to_string();
        s.append(" (");
        let v = self.version.to_string();
        s.append(v.as_str());
        s.append(") [");
        let b = self.bitness.to_string();
        s.append(b.as_str());
        s.append("]");
        s
    }

    /// Constructs a new `Info` instance with unknown type, version and bitness.
    pub fn unknown() -> (r: Self)
        ensures
            r@ == unknown_info(),
    {
        Info { os_type: Type::Unknown, version: Version::unknown(), bitness: Bitness::Unknown }
    }

    /// Constructs a new `Info` instance with the given type, version and bitness.
    pub fn new(os_type: Type, version: Version, bitness: Bitness) -> (r: Self)
        ensures
            r@ == (SpecInfo { os_type, version: version@, bitness }),
    {
        Info { os_type, version, bitness }
    }

    /// Constructs a new `Info` instance with the given type, an unknown version and an
    /// unknown bitness.
    pub fn with_type(os_type: Type) -> (r: Self)
        ensures
            r@ == info_of_type(os_type),
    {
        Info { os_type, version: Version::unknown(), bitness: Bitness::Unknown }
    }

    /// Returns operating system type. See `Type` for details.
    pub fn os_type(&self) -> (r: Type)
        ensures
            r == self@.os_type,
    {
        self.os_type
    }

    /// Returns operating system version. See `Version` for details.
    pub fn version(&self) -> (r: &Version)
        ensures
            r@ == self@.version,
    {
        &self.version
    }

    /// Returns operating system bitness. See `Bitness` for details.
    pub fn bitness(&self) -> (r: Bitness)
        ensures
            r == self@.bitness,
    {
        self.bitness
    }

    /// Replaces the bitness of this record.
    pub(crate) fn set_bitness(&mut self, bitness: Bitness)
        ensures
            final(self)@ == with_bitness(old(self)@, bitness),
    {
        self.bitness = bitness;
    }
}

impl Default for Info {
    fn default() -> (r: Self)
        ensures
            r@ == unknown_info(),
    {
        Info::unknown()
    }
}

} // verus!
