//! The Windows probe: the edition from the version numbers, the bitness from the build.
use vstd::prelude::*;

use crate::bitness::Bitness;
use crate::info::{unknown_version, Info, SpecInfo};
use crate::os_type::Type;
use crate::text::{lex_lt, opt_view, text_ge};
use crate::version::{SpecVersion, SpecVersionType, Version};

verus! {

/// `wProductType` of a workstation (`VER_NT_WORKSTATION`).
pub const VER_NT_WORKSTATION: u8 = 1;

/// `wSuiteMask` bit of Windows Home Server (`VER_SUITE_WH_SERVER`).
pub const VER_SUITE_WH_SERVER: u16 = 0x8000;

/// `wProcessorArchitecture` of x64 (`PROCESSOR_ARCHITECTURE_AMD64`).
pub const PROCESSOR_ARCHITECTURE_AMD64: u16 = 9;

/// The fields of the system's `OSVERSIONINFOEX` record that identification reads.
#[derive(Debug, Copy, Clone, PartialEq, Eq)]
pub struct OsVersionInfo {
    /// `dwMajorVersion`.
    pub major_version: u32,
    /// `dwMinorVersion`.
    pub minor_version: u32,
    /// `dwBuildNumber`.
    pub build_number: u32,
    /// `wProductType`.
    pub product_type: u8,
    /// `wSuiteMask`.
    pub suite_mask: u16,
}

/// The facts beyond the version record that tell the editions of Windows 5.2 apart.
#[derive(Debug, Copy, Clone, PartialEq, Eq)]
pub struct ServerFacts {
    /// `GetSystemMetrics(SM_SERVERR2)`: non-zero on Windows Server 2003 R2.
    pub server_r2: i32,
    /// `wProcessorArchitecture` of `GetSystemInfo`.
    pub processor_architecture: u16,
}

/// The edition of Windows 5.2 that is not Server 2003 R2.
pub open spec fn spec_edition_5_2(v: OsVersionInfo, facts: ServerFacts) -> Seq<char> {
    if v.suite_mask & VER_SUITE_WH_SERVER == VER_SUITE_WH_SERVER {
        "Windows Home Server"@
    } else if v.product_type == VER_NT_WORKSTATION && facts.processor_architecture
        == PROCESSOR_ARCHITECTURE_AMD64 {
        "Windows XP Professional x64 Edition"@
    } else {
        "Windows Server 2003"@
    }
}

/// The Windows edition that the version record names: keyed by major and minor version and
/// whether the product is a workstation. Windows 10 servers are Server 2019 from release id
/// `1809` on (compared as strings), Server 2016 before.
pub open spec fn spec_edition(
    v: OsVersionInfo,
    release_id: Option<Seq<char>>,
    facts: ServerFacts,
) -> Option<Seq<char>> {
    let ws = v.product_type == VER_NT_WORKSTATION;
    let (major, minor) = (v.major_version, v.minor_version);
    if major == 10 && minor == 0 {
        if ws {
            Some("Windows 10"@)
        } else {
            match release_id {
                Some(id) => if !lex_lt(id, "1809"@) {
                    Some("Windows Server 2019"@)
                } else {
                    Some("Windows Server 2016"@)
                },
                None => Some("Windows Server 2016"@),
            }
        }
    } else if major == 6 && minor == 3 {
        Some(if ws { "Windows 8.1"@ } else { "Windows Server 2012 R2"@ })
    } else if major == 6 && minor == 2 {
        Some(if ws { "Windows 8"@ } else { "Windows Server 2012"@ })
    } else if major == 6 && minor == 1 {
        Some(if ws { "Windows 7"@ } else { "Windows Server 2008 R2"@ })
    } else if major == 6 && minor == 0 {
        Some(if ws { "Windows Vista"@ } else { "Windows Server 2008"@ })
    } else if major == 5 && minor == 1 {
        Some("Windows XP"@)
    } else if major == 5 && minor == 0 {
        Some("Windows 2000"@)
    } else if major == 5 && minor == 2 && facts.server_r2 == 0 {
        Some(spec_edition_5_2(v, facts))
    } else {
        None
    }
}

/// The bitness of Windows: a 64-bit build runs only on 64-bit Windows; a 32-bit build asks
/// whether it runs under WOW64 (`is_wow64`, none where that could not be asked).
pub open spec fn spec_bitness(pointer_width_64: bool, is_wow64: Option<bool>) -> Bitness {
    if pointer_width_64 {
        Bitness::X64
    } else {
        match is_wow64 {
            None => Bitness::Unknown,
            Some(true) => Bitness::X64,
            Some(false) => Bitness::X32,
        }
    }
}

/// The version record of Windows: the version numbers as a semantic version with the
/// edition they name; unknown where the version record could not be read.
pub open spec fn spec_version(
    version_info: Option<OsVersionInfo>,
    release_id: Option<Seq<char>>,
    facts: ServerFacts,
) -> SpecVersion {
    match version_info {
        None => unknown_version(),
        Some(v) => SpecVersion {
            version: SpecVersionType::Semantic(
                v.major_version as u64,
                v.minor_version as u64,
                v.build_number as u64,
            ),
            edition: spec_edition(v, release_id, facts),
            codename: None,
        },
    }
}

/// The edition of Windows 5.2 other than Server 2003 R2; see `spec_edition_5_2`.
pub(crate) fn edition_5_2(v: &OsVersionInfo, facts: ServerFacts) -> (r: String)
    ensures
        r@ == spec_edition_5_2(*v, facts),
{
    if v.suite_mask & VER_SUITE_WH_SERVER == VER_SUITE_WH_SERVER {
        "Windows Home Server".to_owned()
    } else if v.product_type == VER_NT_WORKSTATION && facts.processor_architecture
        == PROCESSOR_ARCHITECTURE_AMD64 {
        "Windows XP Professional x64 Edition".to_owned()
    } else {
        "Windows Server 2003".to_owned()
    }
}

/// Examines the version record to determine the Windows edition; see `spec_edition`.
pub fn edition(version_info: &OsVersionInfo, release_id: Option<String>, facts: ServerFacts) -> (r:
    Option<String>)
    ensures
        opt_view(r) == spec_edition(*version_info, opt_view(release_id), facts),
{
    let ws = version_info.product_type == VER_NT_WORKSTATION;
    let major = version_info.major_version;
    let minor = version_info.minor_version;
    let name = if major == 10 && minor == 0 {
        if ws {
            "Windows 10"
        } else {
            match &release_id {
                Some(id) => {
                    if text_ge(id.as_str(), "1809") {
                        "Windows Server 2019"
                    } else {
                        "Windows Server 2016"
                    }
                },
                None => "Windows Server 2016",
            }
        }
    } else if major == 6 && minor == 3 {
        if ws {
            "Windows 8.1"
        } else {
            "Windows Server 2012 R2"
        }
    } else if major == 6 && minor == 2 {
        if ws {
            "Windows 8"
        } else {
            "Windows Server 2012"
        }
    } else if major == 6 && minor == 1 {
        if ws {
            "Windows 7"
        } else {
            "Windows Server 2008 R2"
        }
    } else if major == 6 && minor == 0 {
        if ws {
            "Windows Vista"
        } else {
            "Windows Server 2008"
        }
    } else if major == 5 && minor == 1 {
        "Windows XP"
    } else if major == 5 && minor == 0 {
        "Windows 2000"
    } else if major == 5 && minor == 2 && facts.server_r2 == 0 {
        return Some(edition_5_2(version_info, facts));
    } else {
        return None;
    };
    Some(name.to_owned())
}

/// The bitness of Windows; see `spec_bitness`.
pub fn bitness(pointer_width_64: bool, is_wow64: Option<bool>) -> (r: Bitness)
    ensures
        r == spec_bitness(pointer_width_64, is_wow64),
{
    if pointer_width_64 {
        Bitness::X64
    } else {
        match is_wow64 {
            None => Bitness::Unknown,
            Some(true) => Bitness::X64,
            Some(false) => Bitness::X32,
        }
    }
}

/// The version record of Windows; see `spec_version`.
pub fn version(version_info: Option<OsVersionInfo>, release_id: Option<String>, facts: ServerFacts) -> (r:
    Version)
    ensures
        r@ == spec_version(version_info, opt_view(release_id), facts),
{
    match version_info {
        None => Version::unknown(),
        Some(v) => {
            let e = edition(&v, release_id, facts);
            Version::semantic(v.major_version as u64, v.minor_version as u64, v.build_number as u64, e, None)
        },
    }
}

/// Identifies Windows from its version record (none where `RtlGetVersion` failed), the
/// `ReleaseId` registry value, the facts that tell the 5.2 editions apart, and the bitness.
pub fn get(
    version_info: Option<OsVersionInfo>,
    release_id: Option<String>,
    facts: ServerFacts,
    bitness: Bitness,
) -> (r: Info)
    ensures
        r@ == (SpecInfo {
            os_type: Type::Windows,
            version: spec_version(version_info, opt_view(release_id), facts),
            bitness,
        }),
{
    Info::new(Type::Windows, version(version_info, release_id, facts), bitness)
}

} // verus!
