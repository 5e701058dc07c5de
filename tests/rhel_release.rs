use os_info::rhel_release::{parse, rhel_release};
use os_info::{Type, Version};

fn file() -> &'static str {
    "CentOS Linux release 7.3.1611 (Core)"
}

#[test]
fn test_parses_distribution() {
    let parse_results = parse(file());
    assert_eq!(parse_results.distro, Some("CentOS".to_string()));
}

#[test]
fn rhel_release_test_parses_version() {
    let parse_results = parse(file());
    assert_eq!(parse_results.version, Some("7.3.1611".to_string()));
}

#[test]
fn rhel_release_records() {
    let centos = rhel_release(Some(file().to_owned()));
    assert_eq!(centos.os_type(), Type::CentOS);
    assert_eq!(centos.version(), &Version::custom("7.3.1611".to_owned(), None, None));

    let redhat = rhel_release(Some("Red Hat Enterprise Linux Server release 7.9 (Maipo)".to_owned()));
    assert_eq!(redhat.os_type(), Type::Redhat);
    assert_eq!(redhat.version(), &Version::custom("7.9".to_owned(), None, None));

    let none = rhel_release(None);
    assert_eq!(none.os_type(), Type::Linux);
    assert_eq!(none.version(), &Version::unknown());
}
