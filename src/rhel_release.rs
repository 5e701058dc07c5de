//! Identification from the Red Hat family's release file.
use vstd::prelude::*;

use crate::bitness::Bitness;
use crate::capture::{first_capture, regex_first_capture};
use crate::info::{unknown_version, Info, SpecInfo};
use crate::os_type::Type;
use crate::text::{opt_view, same_text};
use crate::version::{SpecVersion, SpecVersionType, Version};

verus! {

/// The distribution and release named in a Red Hat style release file.
pub struct RHELRelease {
    /// The word before `Linux release`.
    pub distro: Option<String>,
    /// The word after `release`.
    pub version: Option<String>,
}

/// The expression whose first group is the distribution name.
pub open spec fn distro_pattern() -> Seq<char> {
    "(\\w+) Linux release"@
}

/// The expression whose first group is the release number.
pub open spec fn release_pattern() -> Seq<char> {
    "release\\s([\\w\\.]+)"@
}

/// The record that a distribution name and a release give: CentOS where the name is
/// `CentOS`, Red Hat otherwise, with the release as a custom version (unknown where absent).
pub open spec fn spec_release_info(distro: Option<Seq<char>>, version: Option<Seq<char>>) -> SpecInfo {
    SpecInfo {
        os_type: if distro == Some("CentOS"@) {
            Type::CentOS
        } else {
            Type::Redhat
        },
        version: match version {
            Some(v) => SpecVersion {
                version: SpecVersionType::Custom(v),
                edition: None,
                codename: None,
            },
            None => unknown_version(),
        },
        bitness: Bitness::Unknown,
    }
}

/// The record that a Red Hat style release file gives; a generic Linux where there is no
/// file.
pub open spec fn spec_rhel_info(release: Option<Seq<char>>) -> SpecInfo {
    match release {
        Some(file) => spec_release_info(
            regex_first_capture(distro_pattern(), file),
            regex_first_capture(release_pattern(), file),
        ),
        None => SpecInfo { os_type: Type::Linux, version: unknown_version(), bitness: Bitness::Unknown },
    }
}

/// Reads the distribution and the release from a Red Hat style release file.
pub fn parse(file: &str) -> (r: RHELRelease)
    ensures
        opt_view(r.distro) == regex_first_capture(distro_pattern(), file@),
        opt_view(r.version) == regex_first_capture(release_pattern(), file@),
{
    let distro = first_capture("(\\w+) Linux release", file);
    let version = first_capture("release\\s([\\w\\.]+)", file);
    RHELRelease { distro, version }
}

/// The record that the content of `/etc/redhat-release` (or, where that file is missing,
/// `/etc/centos-release`) gives; `release` is none where neither could be read.
pub fn rhel_release(release: Option<String>) -> (r: Info)
    ensures
        r@ == spec_rhel_info(opt_view(release)),
{
    match release {
        Some(file) => info_of(parse(file.as_str())),
        None => Info::new(Type::Linux, Version::unknown(), Bitness::Unknown),
    }
}

/// The record that a parsed release file gives; see `spec_release_info`.
pub fn info_of(release: RHELRelease) -> (r: Info)
    ensures
        r@ == spec_release_info(opt_view(release.distro), opt_view(release.version)),
{
    let is_centos = match &release.distro {
        Some(d) => same_text(d.as_str(), "CentOS"),
        None => false,
    };
    let version = match release.version {
        Some(v) => Version::custom(v, None, None),
        None => Version::unknown(),
    };
    let os_type = if is_centos {
        Type::CentOS
    } else {
        Type::Redhat
    };
    Info::new(os_type, version, Bitness::Unknown)
}

} // verus!
