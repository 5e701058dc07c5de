//! Identification from the release files that Linux distributions install under `/etc`.
//!
//! A fixed, ordered table of descriptors names the files and how to read the type, version,
//! edition and codename from each. The first descriptor whose file is present and whose
//! type rule recognises the content decides the record; nothing is merged across files.
use vstd::prelude::*;

use crate::bitness::Bitness;
use crate::info::{Info, SpecInfo};
use crate::matcher::{key_value, spec_find, Matcher};
use crate::os_type::Type;
use crate::text::{opt_view, same_text};
use crate::version::{spec_from_string, SpecVersion, SpecVersionType, Version, VersionType};

verus! {

/// How a descriptor decides the operating system type from its file.
#[derive(Debug, Copy, Clone)]
pub enum TypeRule {
    /// The file's presence alone names the type.
    Always(Type),
    /// The `ID` key of an os-release file names the type; see `id_table`.
    OsReleaseId,
}

/// How to parse distribution info from a release file.
#[derive(Debug, Copy, Clone)]
pub struct ReleaseInfo {
    /// Path to the release file, relative to the root directory.
    pub path: &'static str,
    /// How the os type is determined from the release file contents.
    pub os_type: TypeRule,
    /// Finds the os version in the release file contents.
    pub version: Matcher,
    /// Finds the os edition (variant) in the release file contents, where the file has one.
    pub edition: Option<Matcher>,
    /// Finds the os codename in the release file contents, where the file has one.
    pub codename: Option<Matcher>,
}

/// The `ID` values of os-release files that name a known distribution.
pub open spec fn spec_id_table() -> Seq<(&'static str, Type)> {
    seq![
        ("alpine", Type::Alpine),
        ("amzn", Type::Amazon),
        ("arch", Type::Arch),
        ("centos", Type::CentOS),
        ("debian", Type::Debian),
        ("endeavouros", Type::EndeavourOS),
        ("fedora", Type::Fedora),
        ("garuda", Type::Garuda),
        ("gentoo", Type::Gentoo),
        ("manjaro", Type::Manjaro),
        ("mariner", Type::Mariner),
        ("linuxmint", Type::Mint),
        ("nixos", Type::NixOS),
        ("opencloudos", Type::OpenCloudOS),
        ("openEuler", Type::openEuler),
        ("opensuse", Type::openSUSE),
        ("opensuse-leap", Type::openSUSE),
        ("ol", Type::OracleLinux),
        ("pop", Type::Pop),
        ("raspbian", Type::Raspbian),
        ("rhel", Type::RedHatEnterprise),
        ("solus", Type::Solus),
        ("sled", Type::SUSE),
        ("sles", Type::SUSE),
        ("sles_sap", Type::SUSE),
        ("ubuntu", Type::Ubuntu),
    ]
}

/// The type that the first entry of `table`, from the `j`-th on, with name `id` gives.
pub open spec fn lookup_id(table: Seq<(&'static str, Type)>, id: Seq<char>, j: int) -> Option<Type>
    decreases table.len() - j,
{
    if j < 0 || j >= table.len() {
        None
    } else if table[j].0@ == id {
        Some(table[j].1)
    } else {
        lookup_id(table, id, j + 1)
    }
}

/// The type an os-release `ID` value names, if any.
pub open spec fn type_of_id(id: Seq<char>) -> Option<Type> {
    lookup_id(spec_id_table(), id, 0)
}

/// The type `rule` finds in `content`.
pub open spec fn spec_os_type(rule: TypeRule, content: Seq<char>) -> Option<Type> {
    match rule {
        TypeRule::Always(t) => Some(t),
        TypeRule::OsReleaseId => match key_value(content, "ID"@) {
            Some(id) => type_of_id(id),
            None => None,
        },
    }
}

/// What an optional matcher finds in `content`.
pub open spec fn find_opt(m: Option<Matcher>, content: Seq<char>) -> Option<Seq<char>> {
    match m {
        Some(m) => spec_find(m, content),
        None => None,
    }
}

/// `o` with an empty value read as absent.
pub open spec fn non_empty(o: Option<Seq<char>>) -> Option<Seq<char>> {
    match o {
        Some(s) => if s.len() == 0 {
            None
        } else {
            Some(s)
        },
        None => None,
    }
}

/// The record that descriptor `d` reads from file content `content`: none where its type
/// rule does not recognise the content; otherwise the type, with the version, edition and
/// codename that its matchers find (an unknown version where the version matcher finds
/// nothing, no codename where it is empty).
pub open spec fn spec_release_info(d: ReleaseInfo, content: Seq<char>) -> Option<SpecInfo> {
    match spec_os_type(d.os_type, content) {
        None => None,
        Some(t) => Some(
            SpecInfo {
                os_type: t,
                version: SpecVersion {
                    version: match spec_find(d.version, content) {
                        Some(v) => spec_from_string(v),
                        None => SpecVersionType::Unknown,
                    },
                    edition: find_opt(d.edition, content),
                    codename: non_empty(find_opt(d.codename, content)),
                },
                bitness: Bitness::Unknown,
            },
        ),
    }
}

/// The content at `j`, absent past the end of `contents`.
pub open spec fn content_at(contents: Seq<Option<String>>, j: int) -> Option<Seq<char>> {
    if 0 <= j < contents.len() {
        opt_view(contents[j])
    } else {
        None
    }
}

/// The record of the first descriptor, from the `j`-th on, whose file is present and whose
/// type rule recognises its content; `contents[i]` is the content of the file of `ds[i]`.
pub open spec fn first_release(ds: Seq<ReleaseInfo>, contents: Seq<Option<String>>, j: int) -> Option<
    SpecInfo,
>
    decreases ds.len() - j,
{
    if j < 0 || j >= ds.len() {
        None
    } else {
        match content_at(contents, j) {
            Some(c) => match spec_release_info(ds[j], c) {
                Some(i) => Some(i),
                None => first_release(ds, contents, j + 1),
            },
            None => first_release(ds, contents, j + 1),
        }
    }
}

/// The supported release files, in the order they are tried: the os-release file first,
/// which most modern distributions have, then the files of older distributions.
pub open spec fn spec_distributions() -> Seq<ReleaseInfo> {
    seq![
        ReleaseInfo {
            path: "etc/os-release",
            os_type: TypeRule::OsReleaseId,
            version: Matcher::KeyValue { key: "VERSION_ID" },
            edition: Some(Matcher::KeyValue { key: "VARIANT" }),
            codename: Some(Matcher::KeyValue { key: "VERSION_CODENAME" }),
        },
        ReleaseInfo {
            path: "etc/mariner-release",
            os_type: TypeRule::Always(Type::Mariner),
            version: Matcher::PrefixedVersion { prefix: "CBL-Mariner" },
            edition: None,
            codename: None,
        },
        ReleaseInfo {
            path: "etc/centos-release",
            os_type: TypeRule::Always(Type::CentOS),
            version: Matcher::PrefixedVersion { prefix: "release" },
            edition: None,
            codename: None,
        },
        ReleaseInfo {
            path: "etc/fedora-release",
            os_type: TypeRule::Always(Type::Fedora),
            version: Matcher::PrefixedVersion { prefix: "release" },
            edition: None,
            codename: None,
        },
        ReleaseInfo {
            path: "etc/alpine-release",
            os_type: TypeRule::Always(Type::Alpine),
            version: Matcher::AllTrimmed,
            edition: None,
            codename: None,
        },
        ReleaseInfo {
            path: "etc/redhat-release",
            os_type: TypeRule::Always(Type::RedHatEnterprise),
            version: Matcher::PrefixedVersion { prefix: "release" },
            edition: None,
            codename: None,
        },
    ]
}

/// The os-release `ID` values of known distributions with their types.
pub fn id_table() -> (r: Vec<(&'static str, Type)>)
    ensures
        r@ == spec_id_table(),
{
    let r = vec![
        ("alpine", Type::Alpine),
        ("amzn", Type::Amazon),
        ("arch", Type::Arch),
        ("centos", Type::CentOS),
        ("debian", Type::Debian),
        ("endeavouros", Type::EndeavourOS),
        ("fedora", Type::Fedora),
        ("garuda", Type::Garuda),
        ("gentoo", Type::Gentoo),
        ("manjaro", Type::Manjaro),
        ("mariner", Type::Mariner),
        ("linuxmint", Type::Mint),
        ("nixos", Type::NixOS),
        ("opencloudos", Type::OpenCloudOS),
        ("openEuler", Type::openEuler),
        ("opensuse", Type::openSUSE),
        ("opensuse-leap", Type::openSUSE),
        ("ol", Type::OracleLinux),
        ("pop", Type::Pop),
        ("raspbian", Type::Raspbian),
        ("rhel", Type::RedHatEnterprise),
        ("solus", Type::Solus),
        ("sled", Type::SUSE),
        ("sles", Type::SUSE),
        ("sles_sap", Type::SUSE),
        ("ubuntu", Type::Ubuntu),
    ];
    assert(r@ =~= spec_id_table());
    r
}

/// The supported release files, in the order they are tried; see `spec_distributions`.
pub fn distributions() -> (r: Vec<ReleaseInfo>)
    ensures
        r@ == spec_distributions(),
{
    let r = vec![
        ReleaseInfo {
            path: "etc/os-release",
            os_type: TypeRule::OsReleaseId,
            version: Matcher::KeyValue { key: "VERSION_ID" },
            edition: Some(Matcher::KeyValue { key: "VARIANT" }),
            codename: Some(Matcher::KeyValue { key: "VERSION_CODENAME" }),
        },
        ReleaseInfo {
            path: "etc/mariner-release",
            os_type: TypeRule::Always(Type::Mariner),
            version: Matcher::PrefixedVersion { prefix: "CBL-Mariner" },
            edition: None,
            codename: None,
        },
        ReleaseInfo {
            path: "etc/centos-release",
            os_type: TypeRule::Always(Type::CentOS),
            version: Matcher::PrefixedVersion { prefix: "release" },
            edition: None,
            codename: None,
        },
        ReleaseInfo {
            path: "etc/fedora-release",
            os_type: TypeRule::Always(Type::Fedora),
            version: Matcher::PrefixedVersion { prefix: "release" },
            edition: None,
            codename: None,
        },
        ReleaseInfo {
            path: "etc/alpine-release",
            os_type: TypeRule::Always(Type::Alpine),
            version: Matcher::AllTrimmed,
            edition: None,
            codename: None,
        },
        ReleaseInfo {
            path: "etc/redhat-release",
            os_type: TypeRule::Always(Type::RedHatEnterprise),
            version: Matcher::PrefixedVersion { prefix: "release" },
            edition: None,
            codename: None,
        },
    ];
    assert(r@ =~= spec_distributions());
    r
}

/// The type an os-release `ID` value names; see `type_of_id`.
pub fn os_type_of_id(id: &str) -> (r: Option<Type>)
    ensures
        r == type_of_id(id@),
{
    let table = id_table();
    let mut j: usize = 0;
    while j < table.len()
        invariant
            table@ == spec_id_table(),
            j <= table@.len(),
            type_of_id(id@) == lookup_id(table@, id@, j as int),
        decreases table@.len() - j,
    {
        let (name, t) = table[j];
        if same_text(name, id) {
            return Some(t);
        }
        j = j + 1;
    }
    None
}

/// The type `rule` finds in `content`; see `spec_os_type`.
pub fn os_type_of(rule: TypeRule, content: &str) -> (r: Option<Type>)
    ensures
        r == spec_os_type(rule, content@),
{
    match rule {
        TypeRule::Always(t) => Some(t),
        TypeRule::OsReleaseId => match (Matcher::KeyValue { key: "ID" }).find(content) {
            Some(id) => os_type_of_id(id.as_str()),
            None => None,
        },
    }
}

/// The record that `release_info` reads from `content`; see `spec_release_info`.
pub fn parse_release(release_info: &ReleaseInfo, content: &str) -> (r: Option<Info>)
    ensures
        match r {
            Some(i) => spec_release_info(*release_info, content@) == Some(i@),
            None => spec_release_info(*release_info, content@) is None,
        },
{
    let os_type = match os_type_of(release_info.os_type, content) {
        Some(t) => t,
        None => {
            return None;
        },
    };
    let version = match release_info.version.find(content) {
        Some(v) => VersionType::from_string(v.as_str()),
        None => VersionType::Unknown,
    };
    let edition = match release_info.edition {
        Some(m) => m.find(content),
        None => None,
    };
    let codename = match release_info.codename {
        Some(m) => match m.find(content) {
            Some(c) => {
                if c.as_str().unicode_len() == 0 {
                    None
                } else {
                    Some(c)
                }
            },
            None => None,
        },
        None => None,
    };
    Some(Info::new(os_type, Version::new(version, edition, codename), Bitness::Unknown))
}

/// The record of the first of `distributions` whose file is present and recognised, where
/// `contents[i]` is the content of the file of `distributions[i]` (absent where the file is
/// missing or cannot be read); see `first_release`.
pub fn retrieve(distributions: &Vec<ReleaseInfo>, contents: &Vec<Option<String>>) -> (r: Option<
    Info,
>)
    ensures
        match r {
            Some(i) => first_release(distributions@, contents@, 0) == Some(i@),
            None => first_release(distributions@, contents@, 0) is None,
        },
{
    let mut j: usize = 0;
    while j < distributions.len()
        invariant
            j <= distributions@.len(),
            first_release(distributions@, contents@, 0) == first_release(
                distributions@,
                contents@,
                j as int,
            ),
        decreases distributions@.len() - j,
    {
        if j < contents.len() {
            match &contents[j] {
                Some(content) => {
                    match parse_release(&distributions[j], content.as_str()) {
                        Some(info) => {
                            return Some(info);
                        },
                        None => {},
                    }
                },
                None => {},
            }
        }
        j = j + 1;
    }
    None
}

/// The record that the release files give, where `contents[i]` is the content of the file
/// `distributions()[i].path` under the root directory (absent where the file is missing or
/// cannot be read).
pub fn get(contents: &Vec<Option<String>>) -> (r: Option<Info>)
    ensures
        match r {
            Some(i) => first_release(spec_distributions(), contents@, 0) == Some(i@),
            None => first_release(spec_distributions(), contents@, 0) is None,
        },
{
    retrieve(&distributions(), contents)
}

/// A missing file never decides: the search goes on with the next descriptor.
pub proof fn lemma_missing_file_skipped(ds: Seq<ReleaseInfo>, contents: Seq<Option<String>>, j: int)
    requires
        0 <= j < ds.len(),
        content_at(contents, j) is None,
    ensures
        first_release(ds, contents, j) == first_release(ds, contents, j + 1),
{
}

/// The first descriptor whose file is recognised wins: later files are not consulted.
pub proof fn lemma_first_match_wins(ds: Seq<ReleaseInfo>, contents: Seq<Option<String>>, j: int)
    requires
        0 <= j < ds.len(),
        content_at(contents, j) matches Some(c) && spec_release_info(ds[j], c) is Some,
    ensures
        first_release(ds, contents, j) == spec_release_info(ds[j], content_at(contents, j)->0),
{
}

/// An empty file for a descriptor that always recognises its file and reads the whole
/// trimmed content as the version gives the custom version `""`, not an unknown one.
pub proof fn lemma_empty_file_custom_version(d: ReleaseInfo)
    requires
        d.os_type matches TypeRule::Always(_),
        d.version matches Matcher::AllTrimmed,
    ensures
        spec_release_info(d, Seq::empty()) matches Some(i) && i.version.version
            == SpecVersionType::Custom(Seq::empty()),
{
    let e = Seq::<char>::empty();
    assert(crate::text::trim(e) =~= e);
    assert(crate::text::split(e, '.') == seq![e]);
    assert(crate::text::digits_u64(e) is None);
}

} // verus!
