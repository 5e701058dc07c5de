use os_info::win32_version::Win32Version;
use os_info::windows::{bitness, edition, get, OsVersionInfo, ServerFacts, VER_NT_WORKSTATION};
use os_info::windows_ver::parse;
use os_info::{Bitness, Type, Version};

fn record(major: u32, minor: u32, product_type: u8) -> OsVersionInfo {
    OsVersionInfo {
        major_version: major,
        minor_version: minor,
        build_number: 0,
        product_type,
        suite_mask: 0,
    }
}

const PLAIN: ServerFacts = ServerFacts {
    server_r2: 0,
    processor_architecture: 0,
};

#[test]
fn winapi_get_edition() {
    let test_data = [
        (10, 0, VER_NT_WORKSTATION, None, "Windows 10"),
        (10, 0, VER_NT_WORKSTATION, Some("1803"), "Windows 10"),
        (10, 0, VER_NT_WORKSTATION, Some("1809"), "Windows 10"),
        (10, 0, VER_NT_WORKSTATION, Some("2004"), "Windows 10"),
        (10, 0, 0, None, "Windows Server 2016"),
        (10, 0, 0, Some("1803"), "Windows Server 2016"),
        (10, 0, 0, Some("1809"), "Windows Server 2019"),
        (10, 0, 0, Some("2004"), "Windows Server 2019"),
        (6, 3, VER_NT_WORKSTATION, None, "Windows 8.1"),
        (6, 3, 0, None, "Windows Server 2012 R2"),
        (6, 2, VER_NT_WORKSTATION, None, "Windows 8"),
        (6, 2, 0, None, "Windows Server 2012"),
        (6, 1, VER_NT_WORKSTATION, None, "Windows 7"),
        (6, 1, 0, None, "Windows Server 2008 R2"),
        (6, 0, VER_NT_WORKSTATION, None, "Windows Vista"),
        (6, 0, 0, None, "Windows Server 2008"),
        (5, 1, 0, None, "Windows XP"),
        (5, 1, 1, None, "Windows XP"),
        (5, 1, 100, None, "Windows XP"),
        (5, 0, 0, None, "Windows 2000"),
        (5, 0, 1, None, "Windows 2000"),
        (5, 0, 100, None, "Windows 2000"),
    ];

    for (major, minor, product_type, release_id, expected_edition) in &test_data {
        let info = record(*major, *minor, *product_type);
        let release_id = release_id.map(|s| s.to_string());
        let edition = edition(&info, release_id, PLAIN).unwrap();
        assert_eq!(edition, *expected_edition);
    }
}

#[test]
fn edition_of_windows_5_2() {
    let mut home = record(5, 2, 0);
    home.suite_mask = 0x8000;
    assert_eq!(edition(&home, None, PLAIN), Some("Windows Home Server".to_owned()));
    let amd64 = ServerFacts {
        server_r2: 0,
        processor_architecture: 9,
    };
    assert_eq!(
        edition(&record(5, 2, VER_NT_WORKSTATION), None, amd64),
        Some("Windows XP Professional x64 Edition".to_owned())
    );
    assert_eq!(
        edition(&record(5, 2, 0), None, PLAIN),
        Some("Windows Server 2003".to_owned())
    );
    let r2 = ServerFacts {
        server_r2: 1,
        processor_architecture: 0,
    };
    assert_eq!(edition(&record(5, 2, 0), None, r2), None);
    assert_eq!(edition(&record(4, 0, 0), None, PLAIN), None);
    assert_eq!(edition(&record(10, 1, 1), None, PLAIN), None);
}

#[test]
fn win32_version_edition() {
    let test_data = [
        (10, 0, VER_NT_WORKSTATION, "Windows 10"),
        (10, 0, 0, "Windows Server 2016"),
        (6, 3, VER_NT_WORKSTATION, "Windows 8.1"),
        (6, 3, 0, "Windows Server 2012 R2"),
        (6, 2, VER_NT_WORKSTATION, "Windows 8"),
        (6, 2, 0, "Windows Server 2012"),
        (6, 1, VER_NT_WORKSTATION, "Windows 7"),
        (6, 1, 0, "Windows Server 2008 R2"),
        (6, 0, VER_NT_WORKSTATION, "Windows Vista"),
        (6, 0, 0, "Windows Server 2008"),
        (5, 1, 0, "Windows XP"),
        (5, 1, 1, "Windows XP"),
        (5, 1, 100, "Windows XP"),
        (5, 0, 0, "Windows 2000"),
        (5, 0, 1, "Windows 2000"),
        (5, 0, 100, "Windows 2000"),
    ];
    for (major, minor, product_type, expected) in test_data {
        let v = Win32Version {
            osvi: Some(record(major, minor, product_type)),
            edition: None,
        }
        .edition(PLAIN);
        assert_eq!(v.edition, Some(expected.to_owned()));
    }
    let r2 = ServerFacts {
        server_r2: 1,
        processor_architecture: 0,
    };
    let v = Win32Version {
        osvi: Some(record(5, 2, 0)),
        edition: None,
    }
    .edition(r2);
    assert_eq!(v.edition, Some("Windows Server 2003 R2".to_owned()));
    let unread = Win32Version::default().edition(PLAIN);
    assert_eq!(unread.osvi, None);
    assert_eq!(unread.edition, None);
}

#[test]
fn winapi_get_bitness() {
    assert_eq!(bitness(true, None), Bitness::X64);
    assert_eq!(bitness(false, Some(true)), Bitness::X64);
    assert_eq!(bitness(false, Some(false)), Bitness::X32);
    assert_eq!(bitness(false, None), Bitness::Unknown);
}

#[test]
fn winapi_version() {
    let mut v = record(10, 0, VER_NT_WORKSTATION);
    v.build_number = 19045;
    let info = get(Some(v), Some("2009".to_owned()), PLAIN, Bitness::X64);
    assert_eq!(Type::Windows, info.os_type());
    assert_eq!(
        info.version(),
        &Version::semantic(10, 0, 19045, Some("Windows 10".to_owned()), None)
    );
    assert_eq!(info.bitness(), Bitness::X64);
    let unread = get(None, None, PLAIN, Bitness::Unknown);
    assert_eq!(unread.os_type(), Type::Windows);
    assert_eq!(unread.version(), &Version::unknown());
}

#[test]
fn windows_ver_test_test_parses_version() {
    let parse_results = parse("Microsoft Windows [Version 6.1.7601]");
    assert_eq!(parse_results.version, Some("6.1.7601".into()));
    assert_eq!(parse("Microsoft Windows").version, None);
}
