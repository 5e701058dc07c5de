use os_info::os_info::{OSInfo, OSType, OSVersion};
use os_info::VersionType;

#[test]
fn first_record_form() {
    let info = OSInfo::unknown();
    assert_eq!(info.os_type, OSType::Unknown);
    assert_eq!(info.version, OSVersion::unknown());
    assert_eq!(info.version.edition, "");
    let v = OSVersion::custom("1.0".to_owned(), "Home".to_owned());
    assert_eq!(v.version, VersionType::Custom("1.0".to_owned()));
    assert_eq!(v.edition, "Home");
}
