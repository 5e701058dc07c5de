use os_info::file_release::{self, distributions};
use os_info::{Bitness, Info, Type, Version, VersionType};

fn files(
    os_release: Option<&str>,
    mariner: Option<&str>,
    centos: Option<&str>,
    fedora: Option<&str>,
    alpine: Option<&str>,
    redhat: Option<&str>,
) -> Vec<Option<String>> {
    [os_release, mariner, centos, fedora, alpine, redhat]
        .iter()
        .map(|f| f.map(|s| s.to_owned()))
        .collect()
}

fn info(os_type: Type, version: Version) -> Option<Info> {
    Some(Info::new(os_type, version, Bitness::Unknown))
}

fn sem(a: u64, b: u64, c: u64, edition: Option<&str>, codename: Option<&str>) -> Version {
    Version::semantic(
        a,
        b,
        c,
        edition.map(|s| s.to_owned()),
        codename.map(|s| s.to_owned()),
    )
}

const UBUNTU: &str = "NAME=\"Ubuntu\"\nVERSION=\"18.10 (Cosmic Cuttlefish)\"\nID=ubuntu\nID_LIKE=debian\nPRETTY_NAME=\"Ubuntu 18.10\"\nVERSION_ID=\"18.10\"\nVERSION_CODENAME=cosmic\nUBUNTU_CODENAME=cosmic\n";

const NIXOS: &str = "NAME=NixOS\nID=nixos\nVERSION=\"21.05pre275822.916ee862e87 (Okapi)\"\nVERSION_CODENAME=okapi\nVERSION_ID=\"21.05pre275822.916ee862e87\"\nPRETTY_NAME=\"NixOS 21.05 (Okapi)\"\n";

const FEDORA_WORKSTATION: &str = "NAME=\"Fedora Linux\"\nVERSION=\"35 (Workstation Edition)\"\nID=fedora\nVERSION_ID=35\nVERSION_CODENAME=\"\"\nPLATFORM_ID=\"platform:f35\"\nVARIANT=\"Workstation Edition\"\nVARIANT_ID=workstation\n";

#[test]
fn release_info_debug() {
    let _ = format!("{:?}", &distributions()[0]);
}

#[test]
fn retrieve() {
    let debian = "PRETTY_NAME=\"Debian GNU/Linux 11 (bullseye)\"\nNAME=\"Debian GNU/Linux\"\nVERSION_ID=\"11\"\nVERSION=\"11 (bullseye)\"\nVERSION_CODENAME=bullseye\nID=debian\n";
    let arch = "NAME=\"Arch Linux\"\nPRETTY_NAME=\"Arch Linux\"\nID=arch\nBUILD_ID=rolling\n";
    let oracle = "NAME=\"Oracle Linux Server\"\nVERSION=\"8.1\"\nID=\"ol\"\nVARIANT=\"Server\"\nVARIANT_ID=\"server\"\nVERSION_ID=\"8.1\"\n";
    let cases = [
        (UBUNTU, info(Type::Ubuntu, sem(18, 10, 0, None, Some("cosmic")))),
        (
            NIXOS,
            info(
                Type::NixOS,
                Version::custom(
                    "21.05pre275822.916ee862e87".to_owned(),
                    None,
                    Some("okapi".to_owned()),
                ),
            ),
        ),
        (
            FEDORA_WORKSTATION,
            info(Type::Fedora, sem(35, 0, 0, Some("Workstation Edition"), None)),
        ),
        (debian, info(Type::Debian, sem(11, 0, 0, None, Some("bullseye")))),
        (arch, info(Type::Arch, Version::unknown())),
        (oracle, info(Type::OracleLinux, sem(8, 1, 0, Some("Server"), None))),
    ];
    for (content, expected) in cases {
        let contents = files(Some(content), None, None, None, None, None);
        assert_eq!(file_release::get(&contents), expected);
    }
}

#[test]
fn retrieve_single_distribution_files() {
    let cases = [
        (
            files(None, None, None, None, Some("3.17.0\n"), None),
            info(Type::Alpine, sem(3, 17, 0, None, None)),
        ),
        (
            files(None, Some("CBL-Mariner 2.0.20220210\n"), None, None, None, None),
            info(Type::Mariner, sem(2, 0, 20220210, None, None)),
        ),
        (
            files(None, None, Some("CentOS Linux release 7 (Core)\n"), None, None, None),
            info(Type::CentOS, sem(7, 0, 0, None, None)),
        ),
        (
            files(None, None, None, Some("Fedora release 35 (Thirty Five)\n"), None, None),
            info(Type::Fedora, sem(35, 0, 0, None, None)),
        ),
        (
            files(
                None,
                None,
                None,
                None,
                None,
                Some("Red Hat Enterprise Linux Server release 7.9 (Maipo)\n"),
            ),
            info(Type::RedHatEnterprise, sem(7, 9, 0, None, None)),
        ),
    ];
    for (contents, expected) in cases {
        assert_eq!(file_release::get(&contents), expected);
    }
}

#[test]
fn retrieve_none() {
    assert_eq!(file_release::get(&files(None, None, None, None, None, None)), None);
    assert_eq!(file_release::get(&Vec::new()), None);
    let invalid = "NAME=\"lol\"\nID=lol_invalid\nVERSION_ID=1\n";
    assert_eq!(
        file_release::get(&files(Some(invalid), None, None, None, None, None)),
        None
    );
}

#[test]
fn unrecognised_os_release_falls_through() {
    let invalid = "ID=lol_invalid\nVERSION_ID=1\n";
    let contents = files(Some(invalid), None, None, Some("Fedora release 26"), None, None);
    assert_eq!(
        file_release::get(&contents),
        info(Type::Fedora, sem(26, 0, 0, None, None))
    );
}

#[test]
fn first_recognised_file_wins() {
    let contents = files(
        Some(UBUNTU),
        None,
        None,
        Some("Fedora release 26"),
        Some("3.17.0"),
        None,
    );
    assert_eq!(
        file_release::get(&contents),
        info(Type::Ubuntu, sem(18, 10, 0, None, Some("cosmic")))
    );
}

#[test]
fn empty_release_file_gives_custom_empty_version() {
    let contents = files(None, None, None, None, Some(""), None);
    let info = file_release::get(&contents).unwrap();
    assert_eq!(info.os_type(), Type::Alpine);
    assert_eq!(*info.version().version(), VersionType::Custom(String::new()));
}

#[test]
fn unmatched_version_is_unknown() {
    let contents = files(None, None, None, Some("Fedora"), None, None);
    assert_eq!(file_release::get(&contents), info(Type::Fedora, Version::unknown()));
}

#[test]
fn retrieve_with_own_table() {
    let table = vec![distributions()[4]];
    let contents = vec![Some("1.2".to_owned())];
    assert_eq!(
        file_release::retrieve(&table, &contents),
        info(Type::Alpine, sem(1, 2, 0, None, None))
    );
    assert_eq!(distributions()[4].path, "etc/alpine-release");
}
