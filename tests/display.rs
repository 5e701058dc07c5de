use os_info::os_info::OSType;
use os_info::{Bitness, Family, Info, Type, Version, VersionType};

#[test]
fn display_unknown() {
    let info = Info::unknown();
    assert_eq!("Unknown (?) [unknown bitness]", &info.to_string());
}

#[test]
fn display_bitness() {
    let info = Info::new(Type::Unknown, Version::unknown(), Bitness::X32);
    assert_eq!("Unknown (?) [32-bit]", &info.to_string());

    let info = Info::new(Type::Unknown, Version::unknown(), Bitness::X64);
    assert_eq!("Unknown (?) [64-bit]", &info.to_string());
}

#[test]
fn display_versions() {
    assert_eq!(VersionType::Semantic(10, 0, 19045).to_string(), "10.0.19045");
    assert_eq!(VersionType::Semantic(0, 0, 0).to_string(), "0.0.0");
    assert_eq!(
        VersionType::Semantic(u64::MAX, 7, 10).to_string(),
        "18446744073709551615.7.10"
    );
    assert_eq!(VersionType::Rolling(None).to_string(), "rolling (?)");
    assert_eq!(
        VersionType::Rolling(Some("2020.03.16".to_owned())).to_string(),
        "rolling (2020.03.16)"
    );
    assert_eq!(VersionType::Custom("custom".to_owned()).to_string(), "custom");
    assert_eq!(
        Version::semantic(10, 0, 0, Some("Windows 10".to_owned()), None).to_string(),
        "Windows 10 10.0.0"
    );
}

#[test]
fn display_names() {
    assert_eq!(Type::Redhat.to_string(), "Red Hat Linux");
    assert_eq!(Type::Arch.to_string(), "Arch Linux");
    assert_eq!(Type::Macos.to_string(), "Mac OS");
    assert_eq!(Type::openSUSE.to_string(), "openSUSE");
    assert_eq!(OSType::Centos.to_string(), "CentOS");
    assert_eq!(Family::WindowsNT.to_string(), "Windows NT");
    assert_eq!(Family::BSD.to_string(), "BSD");
    let info = Info::new(
        Type::Fedora,
        Version::semantic(26, 0, 0, None, None),
        Bitness::X64,
    );
    assert_eq!(info.to_string(), "Fedora (26.0.0) [64-bit]");
}
