use os_info::lsb_release::{get, parse};
use os_info::{Type, Version};

fn file() -> &'static str {
    "\nDistributor ID:\tDebian\n\
     Description:\tDebian GNU/Linux 7.8 (wheezy)\n\
     Release:\t7.8\n\
     Codename:\twheezy\n\
     "
}

fn arch_file() -> &'static str {
    "\nLSB Version:\t1.4\n\
     Distributor ID:\tArch\n\
     Description:\tArch Linux\n\
     Release:\trolling\n\
     Codename:\tn/a"
}

fn fedora_file() -> &'static str {
    "\nLSB Version:    :core-4.1-amd64:core-4.1-noarch:cxx-4.1-amd64:cxx-4.1-noarch\n\
     Distributor ID: Fedora\n\
     Description:    Fedora release 26 (Twenty Six)\n\
     Release:    26\n\
     Codename:   TwentySix\n\
     "
}

fn ubuntu_file() -> &'static str {
    "Distributor ID: Ubuntu\n\
     Description:    Ubuntu 16.04.5 LTS\n\
     Release:        16.04\n\
     Codename:       xenial"
}

fn amazon1_file() -> &'static str {
    "LSB Version:\t:base-4.0-amd64:base-4.0-noarch:core-4.0-amd64:core-4.0-noarch\n\
     Distributor ID:\tAmazonAMI\n\
     Description:\tAmazon Linux AMI release 2018.03\n\
     Release:\t2018.03\n\
     Codename:\tn/a\n\
     "
}

fn amazon2_file() -> &'static str {
    "LSB Version:\t:core-4.1-amd64:core-4.1-noarch\n\
     Distributor ID:\tAmazon\n\
     Description:\tAmazon Linux release 2 (Karoo)\n\
     Release:\t2\n\
     Codename:\tKaroo\n\
     "
}

fn rhel8_file() -> &'static str {
    "LSB Version:\t:core-4.1-amd64:core-4.1-noarch\n\
     Distributor ID:\tRedHatEnterprise\n\
     Description:\tRed Hat Enterprise Linux release 8.1 (Ootpa)\n\
     Release:\t8.1\n\
     Codename:\tOotpa\n\
     "
}

fn rhel7_file() -> &'static str {
    "LSB Version:\t:core-4.1-amd64:core-4.1-noarch\n\
     Distributor ID:\tRedHatEnterpriseServer\n\
     Description:\tRed Hat Enterprise Linux Server release 7.7 (Maipo)\n\
     Release:\t7.7\n\
     Codename:\tMaipo\n\
     "
}

fn rhel6_file() -> &'static str {
    "LSB Version:\t:base-4.0-amd64:base-4.0-noarch:core-4.0-amd64:core-4.0-noarch:graphics-4.0-amd64:graphics-4.0-noarch:printing-4.0-amd64:printing-4.0-noarch\n\
    Distributor ID:\tRedHatEnterpriseServer\n\
    Description:\tRed Hat Enterprise Linux Server release 6.10 (Santiago)\n\
    Release:\t6.10\n\
    Codename:\tSantiago\n\
    "
}

fn suse_enterprise15_1_file() -> &'static str {
    "LSB Version:\tn/a\n\
    Distributor ID:\tSUSE\n\
    Description:\tSUSE Linux Enterprise Server 15 SP1\n\
    Release:\t15.1\n\
    Codename:\tn/a\n\
    "
}

fn suse_enterprise12_5_file() -> &'static str {
    "LSB Version:\tn/a\n\
    Distributor ID:\tSUSE\n\
    Description:\tSUSE Linux Enterprise Server 12 SP5\n\
    Release:\t12.5\n\
    Codename:\tn/a\n\
    "
}

fn open_suse_15_1_file() -> &'static str {
    "LSB Version:\tn/a\n\
    Distributor ID:\topenSUSE\n\
    Description:\topenSUSE Leap 15.1\n\
    Release:\t15.1\n\
    Codename:\tn/a\n\
    "
}

fn standalone_file() -> &'static str {
    "
Distributor ID:\tDebian
Description:\tDebian GNU/Linux 7.8 (wheezy)
Release:\t7.8
Codename:\twheezy
"
}

fn standalone_arch_file() -> &'static str {
    "
LSB Version:\t1.4
Distributor ID:\tArch
Description:\tArch Linux
Release:\trolling
Codename:\tn/a
"
}

fn check(output: &str, distro: &str, version: &str) {
    let parse_results = parse(output);
    assert_eq!(parse_results.distro, Some(distro.to_string()));
    assert_eq!(parse_results.version, Some(version.to_string()));
}

#[test]
fn debian() {
    check(file(), "Debian", "7.8");
}

#[test]
fn arch() {
    check(arch_file(), "Arch", "rolling");
}

#[test]
fn lsb_release_fedora() {
    check(fedora_file(), "Fedora", "26");
}

#[test]
fn ubuntu() {
    check(ubuntu_file(), "Ubuntu", "16.04");
}

#[test]
fn amazon1() {
    check(amazon1_file(), "AmazonAMI", "2018.03");
}

#[test]
fn amazon2() {
    check(amazon2_file(), "Amazon", "2");
}

#[test]
fn redhat_enterprise_8() {
    check(rhel8_file(), "RedHatEnterprise", "8.1");
}

#[test]
fn redhat_enterprise_7() {
    check(rhel7_file(), "RedHatEnterpriseServer", "7.7");
}

#[test]
fn redhat_enterprise_6() {
    check(rhel6_file(), "RedHatEnterpriseServer", "6.10");
}

#[test]
fn suse_enterprise_15_1() {
    check(suse_enterprise15_1_file(), "SUSE", "15.1");
}

#[test]
fn suse_enterprise_12_5() {
    check(suse_enterprise12_5_file(), "SUSE", "12.5");
}

#[test]
fn open_suse_15_1() {
    check(open_suse_15_1_file(), "openSUSE", "15.1");
}

#[test]
fn test_parses_lsb_distro() {
    let parse_results = parse(standalone_file());
    assert_eq!(parse_results.distro, Some("Debian".to_string()));
}

#[test]
fn test_parses_lsb_version() {
    let parse_results = parse(standalone_file());
    assert_eq!(parse_results.version, Some("7.8".to_string()));
}

#[test]
fn test_parses_arch_lsb_distro() {
    let parse_results = parse(standalone_arch_file());
    assert_eq!(parse_results.distro, Some("Arch".to_string()));
}

#[test]
fn test_parses_arch_lsb_version() {
    let parse_results = parse(standalone_arch_file());
    assert_eq!(parse_results.version, Some("rolling".to_string()));
}

#[test]
fn lsb_get_maps_distributors() {
    let cases = [
        (rhel7_file(), Type::RedHatEnterprise, "7.7"),
        (amazon1_file(), Type::Amazon, "2018.03"),
        (open_suse_15_1_file(), Type::Linux, "15.1"),
        (file(), Type::Debian, "7.8"),
    ];
    for (output, os_type, version) in cases {
        let info = get(Some(output.to_owned())).unwrap();
        assert_eq!(info.os_type(), os_type);
        assert_eq!(info.version(), &Version::custom(version.to_owned(), None, None));
    }
    assert_eq!(get(None), None);
    let empty = get(Some(String::new())).unwrap();
    assert_eq!(empty.os_type(), Type::Linux);
    assert_eq!(empty.version(), &Version::unknown());
}
