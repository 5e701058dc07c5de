//! The kinds of operating system the library tells apart.
use vstd::prelude::*;

verus! {

/// A list of supported operating system types.
#[allow(non_camel_case_types)]
#[derive(Debug, Copy, Clone, PartialEq, Eq, PartialOrd, Ord, Hash, Structural)]
pub enum Type {
    /// IBM AIX.
    AIX,
    /// Alpine Linux.
    Alpine,
    /// Amazon Linux AMI.
    Amazon,
    /// Android.
    Android,
    /// Arch Linux.
    Arch,
    /// CentOS.
    CentOS,
    /// Debian.
    Debian,
    /// Emscripten.
    Emscripten,
    /// EndeavourOS.
    EndeavourOS,
    /// Fedora.
    Fedora,
    /// FreeBSD.
    FreeBSD,
    /// Garuda Linux.
    Garuda,
    /// Gentoo Linux.
    Gentoo,
    /// HardenedBSD.
    HardenedBSD,
    /// GNU/Hurd.
    Hurd,
    /// illumos.
    Illumos,
    /// iOS.
    Ios,
    /// Linux based operating system.
    Linux,
    /// Mac OS X/OS X/macOS.
    Macos,
    /// Manjaro.
    Manjaro,
    /// Mariner.
    Mariner,
    /// MidnightBSD.
    MidnightBSD,
    /// Linux Mint.
    Mint,
    /// NixOS.
    NixOS,
    /// OpenCloudOS.
    OpenCloudOS,
    /// openEuler.
    openEuler,
    /// openSUSE.
    openSUSE,
    /// Oracle Linux.
    OracleLinux,
    /// Pop!_OS.
    Pop,
    /// Raspberry Pi OS.
    Raspbian,
    /// Red Hat Linux.
    Redhat,
    /// Red Hat Enterprise Linux.
    RedHatEnterprise,
    /// Redox.
    Redox,
    /// Solus.
    Solus,
    /// SUSE Linux Enterprise.
    SUSE,
    /// Ubuntu.
    Ubuntu,
    /// Unknown operating system.
    Unknown,
    /// Windows.
    Windows,
}

/// The name under which a type is displayed.
pub open spec fn os_type_label(t: Type) -> Seq<char> {
    match t {
        Type::AIX => "AIX"@,
        Type::Alpine => "Alpine"@,
        Type::Amazon => "Amazon"@,
        Type::Android => "Android"@,
        Type::Arch => "Arch Linux"@,
        Type::CentOS => "CentOS"@,
        Type::Debian => "Debian"@,
        Type::Emscripten => "Emscripten"@,
        Type::EndeavourOS => "EndeavourOS"@,
        Type::Fedora => "Fedora"@,
        Type::FreeBSD => "FreeBSD"@,
        Type::Garuda => "Garuda"@,
        Type::Gentoo => "Gentoo"@,
        Type::HardenedBSD => "HardenedBSD"@,
        Type::Hurd => "Hurd"@,
        Type::Illumos => "Illumos"@,
        Type::Ios => "Ios"@,
        Type::Linux => "Linux"@,
        Type::Macos => "Mac OS"@,
        Type::Manjaro => "Manjaro"@,
        Type::Mariner => "Mariner"@,
        Type::MidnightBSD => "MidnightBSD"@,
        Type::Mint => "Mint"@,
        Type::NixOS => "NixOS"@,
        Type::OpenCloudOS => "OpenCloudOS"@,
        Type::openEuler => "openEuler"@,
        Type::openSUSE => "openSUSE"@,
        Type::OracleLinux => "OracleLinux"@,
        Type::Pop => "Pop"@,
        Type::Raspbian => "Raspbian"@,
        Type::Redhat => "Red Hat Linux"@,
        Type::RedHatEnterprise => "RedHatEnterprise"@,
        Type::Redox => "Redox"@,
        Type::Solus => "Solus"@,
        Type::SUSE => "SUSE"@,
        Type::Ubuntu => "Ubuntu"@,
        Type::Unknown => "Unknown"@,
        Type::Windows => "Windows"@,
    }
}

impl Type {
    /// The display name of this value.
    pub fn to_string(&self) -> (r: String)
        ensures
            r@ == os_type_label(*self),
    {
        match self {
            Type::AIX => "AIX",
            Type::Alpine => "Alpine",
            Type::Amazon => "Amazon",
            Type::Android => "Android",
            Type::Arch => "Arch Linux",
            Type::CentOS => "CentOS",
            Type::Debian => "Debian",
            Type::Emscripten => "Emscripten",
            Type::EndeavourOS => "EndeavourOS",
            Type::Fedora => "Fedora",
            Type::FreeBSD => "FreeBSD",
            Type::Garuda => "Garuda",
            Type::Gentoo => "Gentoo",
            Type::HardenedBSD => "HardenedBSD",
            Type::Hurd => "Hurd",
            Type::Illumos => "Illumos",
            Type::Ios => "Ios",
            Type::Linux => "Linux",
            Type::Macos => "Mac OS",
            Type::Manjaro => "Manjaro",
            Type::Mariner => "Mariner",
            Type::MidnightBSD => "MidnightBSD",
            Type::Mint => "Mint",
            Type::NixOS => "NixOS",
            Type::OpenCloudOS => "OpenCloudOS",
            Type::openEuler => "openEuler",
            Type::openSUSE => "openSUSE",
            Type::OracleLinux => "OracleLinux",
            Type::Pop => "Pop",
            Type::Raspbian => "Raspbian",
            Type::Redhat => "Red Hat Linux",
            Type::RedHatEnterprise => "RedHatEnterprise",
            Type::Redox => "Redox",
            Type::Solus => "Solus",
            Type::SUSE => "SUSE",
            Type::Ubuntu => "Ubuntu",
            Type::Unknown => "Unknown",
            Type::Windows => "Windows",
        }.to_owned()
    }
}

} // verus!
