use os_info::version::parse_version;
use os_info::{Version, VersionType};

#[test]
fn new_version() {
    let version = Version::new(VersionType::Semantic(2, 3, 4), None, None);
    assert_eq!(VersionType::Semantic(2, 3, 4), *version.version());
    assert_eq!(None, version.edition());
    assert_eq!(None, version.codename());
}

#[test]
fn version_unknown() {
    let version = Version::unknown();
    assert_eq!(VersionType::Unknown, *version.version());
    assert_eq!(None, version.edition());
    assert_eq!(None, version.codename());
}

#[test]
fn version_semantic() {
    let data = [
        ((0, 0, 0), None, None),
        ((10, 20, 30), Some("edition".to_owned()), None),
        ((1, 2, 0), None, Some("codename".to_owned())),
        ((3, 2, 1), None, None),
        (
            (1, 0, 0),
            Some("different edition".to_owned()),
            Some("codename".to_owned()),
        ),
    ];

    for (v, edition, codename) in &data {
        let version = Version::semantic(v.0, v.1, v.2, edition.clone(), codename.clone());
        assert_eq!(VersionType::Semantic(v.0, v.1, v.2), *version.version());
        assert_eq!(edition.as_ref().map(String::as_ref), version.edition());
        assert_eq!(codename.as_ref().map(String::as_ref), version.codename());
    }
}

#[test]
fn rolling() {
    let data = [
        (None, None, None),
        (
            Some("2017.03.22".to_owned()),
            Some("edition".to_owned()),
            Some("codename".to_owned()),
        ),
        (Some("2019.11.12".to_owned()), None, None),
        (None, Some("edition".to_owned()), None),
        (None, None, Some("codename".to_owned())),
        (None, Some("different edition".to_owned()), None),
    ];

    for (date, edition, codename) in &data {
        let version = Version::rolling(date.clone(), edition.clone(), codename.clone());
        assert_eq!(VersionType::Rolling(date.clone()), *version.version());
        assert_eq!(edition.as_ref().map(String::as_ref), version.edition());
        assert_eq!(codename.as_ref().map(String::as_ref), version.codename());
    }
}

#[test]
fn version_custom() {
    let data = [
        ("OS", None, None),
        ("Another OS", Some("edition".to_owned()), None),
        ("", None, None),
        ("Future OS", Some("e".to_owned()), Some("codename".to_owned())),
    ];

    for (v, edition, codename) in &data {
        let version = Version::custom(v.to_string(), edition.clone(), codename.clone());
        assert_eq!(VersionType::Custom(v.to_string()), *version.version());
        assert_eq!(edition.as_ref().map(String::as_ref), version.edition());
        assert_eq!(codename.as_ref().map(String::as_ref), version.codename());
    }
}

#[test]
fn parse_semantic_version() {
    let data = [
        ("", None),
        ("version", None),
        ("1", Some((1, 0, 0))),
        ("1.", None),
        ("1.2", Some((1, 2, 0))),
        ("1.2.", None),
        ("1.2.3", Some((1, 2, 3))),
        ("1.2.3.", None),
        ("1.2.3.  ", None),
        ("   1.2.3.", None),
        ("   1.2.3.  ", None),
        ("1.2.3.4", None),
        ("1.2.3.4.5.6.7.8.9", None),
    ];

    for (s, expected) in &data {
        let result = parse_version(s);
        assert_eq!(expected, &result);
    }
}

#[test]
fn from_string_semantic_forms() {
    assert_eq!(VersionType::from_string("7"), VersionType::Semantic(7, 0, 0));
    assert_eq!(VersionType::from_string("18.10"), VersionType::Semantic(18, 10, 0));
    assert_eq!(VersionType::from_string("1.2.3"), VersionType::Semantic(1, 2, 3));
    assert_eq!(
        VersionType::from_string("18446744073709551615.0.1"),
        VersionType::Semantic(u64::MAX, 0, 1)
    );
}

#[test]
fn from_string_custom_keeps_text() {
    for s in ["custom", "", "1..2", "a.b.c", "1.2.3.4", "18446744073709551616", "21.05pre275822.916ee862e87"] {
        assert_eq!(VersionType::from_string(s), VersionType::Custom(s.to_owned()));
    }
}

#[test]
fn from_string_only_plain_digit_forms() {
    for s in ["+3.4", "-3.4", "\u{3000}5.6\t", " 1.2", "1.", "1.2.3.", ".1", "1.+2"] {
        assert_eq!(VersionType::from_string(s), VersionType::Custom(s.to_owned()));
    }
}

#[test]
fn displayed_version_reads_back() {
    let versions = [
        VersionType::Semantic(0, 0, 0),
        VersionType::Semantic(18, 10, 0),
        VersionType::Semantic(u64::MAX, 1, u64::MAX),
        VersionType::Custom("1.".to_owned()),
        VersionType::Custom("21.05pre275822.916ee862e87".to_owned()),
        VersionType::Custom(String::new()),
    ];
    for v in versions {
        assert_eq!(VersionType::from_string(&v.to_string()), v);
    }
}
