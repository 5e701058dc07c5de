use itertools::Itertools;
use os_info::{Bitness, Family, Info, Type, Version};

#[test]
fn info_unknown() {
    let info = Info::unknown();
    assert_eq!(Type::Unknown, info.os_type());
    assert_eq!(&Version::unknown(), info.version());
    assert_eq!(Bitness::Unknown, info.bitness());
}

#[test]
fn info_new() {
    let types = [
        Type::Alpine,
        Type::Amazon,
        Type::Android,
        Type::Arch,
        Type::CentOS,
        Type::Debian,
        Type::Emscripten,
        Type::EndeavourOS,
        Type::Fedora,
        Type::Linux,
        Type::Macos,
        Type::Manjaro,
        Type::openSUSE,
        Type::OracleLinux,
        Type::Pop,
        Type::Redhat,
        Type::RedHatEnterprise,
        Type::Redox,
        Type::Solus,
        Type::SUSE,
        Type::Ubuntu,
        Type::Unknown,
        Type::Windows,
    ];

    let versions = [
        Version::unknown(),
        Version::semantic(0, 0, 0, None, None),
        Version::semantic(1, 2, 3, Some("e".to_owned()), None),
        Version::semantic(1, 2, 3, Some("e".to_owned()), Some("2020.06.08".to_owned())),
        Version::rolling(None, None, None),
        Version::rolling(
            Some("2020.02.03".to_owned()),
            Some("edition".to_owned()),
            Some("codename".to_owned()),
        ),
        Version::custom("version".to_owned(), None, None),
        Version::custom(
            "different version".to_owned(),
            Some("edition".to_owned()),
            Some("codename".to_owned()),
        ),
    ];

    let bitnesses = [Bitness::Unknown, Bitness::X32, Bitness::X64];

    for ((os_type, version), bitness) in types
        .iter()
        .cartesian_product(versions.iter())
        .cartesian_product(bitnesses.iter())
    {
        let info = Info::new(*os_type, version.clone(), *bitness);
        assert_eq!(*os_type, info.os_type());
        assert_eq!(version, info.version());
        assert_eq!(*bitness, info.bitness());
    }
}

#[test]
fn info_default_is_unknown() {
    assert_eq!(Info::default(), Info::unknown());
    assert_eq!(Family::default(), Family::Unknown);
}
