//! The first form of the record: a type and a version with a plain edition string.
use vstd::prelude::*;

use crate::version::{SpecVersionType, VersionType};

verus! {

/// Holds information about operating system type and its version.
#[derive(Debug, Clone, PartialEq, Eq, PartialOrd, Ord, Hash)]
pub struct OSInfo {
    /// The operating system type.
    pub os_type: OSType,
    /// The operating system version.
    pub version: OSVersion,
}

/// A list of supported operating system types.
#[derive(Debug, Copy, Clone, PartialEq, Eq, PartialOrd, Ord, Hash, Structural)]
pub enum OSType {
    /// Unknown operating system.
    Unknown,
    /// Android.
    Android,
    /// Emscripten.
    Emscripten,
    /// Linux based operating system.
    Linux,
    /// Red Hat Linux.
    Redhat,
    /// Ubuntu.
    Ubuntu,
    /// Debian.
    Debian,
    /// Arch Linux.
    Arch,
    /// CentOS.
    Centos,
    /// Mac OS.
    Macos,
    /// Redox.
    Redox,
    /// Windows.
    Windows,
}

/// An operating system version with its edition, empty where there is none.
#[derive(Debug, Clone, PartialEq, Eq, PartialOrd, Ord, Hash)]
pub struct OSVersion {
    /// The version number.
    pub version: VersionType,
    /// The edition.
    pub edition: String,
}

impl OSVersion {
    /// A custom (non semantic) version with the given edition.
    pub fn custom(version: String, edition: String) -> (r: Self)
        ensures
            r.version@ == SpecVersionType::Custom(version@),
            r.edition@ == edition@,
    {
        OSVersion { version: VersionType::Custom(version), edition }
    }

    /// An unknown version with an empty edition.
    pub fn unknown() -> (r: Self)
        ensures
            r.version@ == SpecVersionType::Unknown,
            r.edition@ == Seq::<char>::empty(),
    {
        OSVersion { version: VersionType::Unknown, edition: String::new() }
    }
}

impl OSInfo {
    /// An unknown type with an unknown version.
    pub fn unknown() -> (r: Self)
        ensures
            r.os_type == OSType::Unknown,
            r.version.version@ == SpecVersionType::Unknown,
            r.version.edition@ == Seq::<char>::empty(),
    {
        OSInfo { os_type: OSType::Unknown, version: OSVersion::unknown() }
    }
}

/// The name under which a type is displayed.
pub open spec fn os_type_name(t: OSType) -> Seq<char> {
    match t {
        OSType::Unknown => "Unknown"@,
        OSType::Android => "Android"@,
        OSType::Emscripten => "Emscripten"@,
        OSType::Linux => "Linux"@,
        OSType::Redhat => "Red Hat Linux"@,
        OSType::Ubuntu => "Ubuntu"@,
        OSType::Debian => "Debian"@,
        OSType::Arch => "Arch Linux"@,
        OSType::Centos => "CentOS"@,
        OSType::Macos => "Mac OS"@,
        OSType::Redox => "Redox"@,
        OSType::Windows => "Windows"@,
    }
}

impl OSType {
    /// The display name of this value.
    pub fn to_string(&self) -> (r: String)
        ensures
            r@ == os_type_name(*self),
    {
        match self {
            OSType::Unknown => "Unknown",
            OSType::Android => "Android",
            OSType::Emscripten => "Emscripten",
            OSType::Linux => "Linux",
            OSType::Redhat => "Red Hat Linux",
            OSType::Ubuntu => "Ubuntu",
            OSType::Debian => "Debian",
            OSType::Arch => "Arch Linux",
            OSType::Centos => "CentOS",
            OSType::Macos => "Mac OS",
            OSType::Redox => "Redox",
            OSType::Windows => "Windows",
        }.to_owned()
    }
}

} // verus!
