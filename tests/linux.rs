use os_info::bitness::from_long_bit;
use os_info::linux::current_platform;
use os_info::{Bitness, Type, Version, VersionType};

fn fedora_only() -> Vec<Option<String>> {
    vec![
        None,
        None,
        None,
        Some("Fedora release 26 (Twenty Six)\n".to_owned()),
        None,
        None,
    ]
}

#[test]
fn fedora_release_without_lsb() {
    let info = current_platform(None, &fedora_only(), Bitness::X64);
    assert_eq!(info.os_type(), Type::Fedora);
    assert_eq!(*info.version().version(), VersionType::Semantic(26, 0, 0));
    assert_eq!(info.bitness(), Bitness::X64);
}

#[test]
fn lsb_release_preferred() {
    let output = "Distributor ID:\tUbuntu\nDescription:\tUbuntu 16.04.5 LTS\nRelease:\t16.04\nCodename:\txenial\n";
    let info = current_platform(Some(output.to_owned()), &fedora_only(), Bitness::X32);
    assert_eq!(info.os_type(), Type::Ubuntu);
    assert_eq!(info.version(), &Version::custom("16.04".to_owned(), None, None));
    assert_eq!(info.bitness(), Bitness::X32);
}

#[test]
fn generic_linux_last() {
    let info = current_platform(None, &Vec::new(), Bitness::Unknown);
    assert_eq!(info.os_type(), Type::Linux);
    assert_eq!(info.version(), &Version::unknown());
}

#[test]
fn linux_query_is_repeatable() {
    let a = current_platform(None, &fedora_only(), Bitness::X64);
    let b = current_platform(None, &fedora_only(), Bitness::X64);
    assert_eq!(a, b);
}

#[test]
fn mod_get_bitness() {
    assert_eq!(from_long_bit(Some(b"32\n".to_vec())), Bitness::X32);
    assert_eq!(from_long_bit(Some(b"64\n".to_vec())), Bitness::X64);
    assert_eq!(from_long_bit(Some(b"64".to_vec())), Bitness::Unknown);
    assert_eq!(from_long_bit(None), Bitness::Unknown);
}
