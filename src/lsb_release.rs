//! Identification from the output of the `lsb_release -a` command.
use vstd::prelude::*;

use crate::bitness::Bitness;
use crate::capture::{first_capture, regex_first_capture};
use crate::file_release::lookup_id;
use crate::info::{unknown_version, Info, SpecInfo};
use crate::os_type::Type;
use crate::text::{opt_view, same_text};
use crate::version::{SpecVersion, SpecVersionType, Version};

verus! {

/// The distributor and release that `lsb_release -a` reports.
pub struct LsbRelease {
    /// The `Distributor ID` value.
    pub distro: Option<String>,
    /// The `Release` value.
    pub version: Option<String>,
}

/// The expression whose first group is the distributor identifier.
pub open spec fn distributor_pattern() -> Seq<char> {
    "Distributor ID:\\s(\\w+)"@
}

/// The expression whose first group is the release number.
pub open spec fn release_pattern() -> Seq<char> {
    "Release:\\s+([\\w]+[.]?[\\w]*)?"@
}

/// Distributor identifiers of known distributions with their types.
pub open spec fn spec_distributor_table() -> Seq<(&'static str, Type)> {
    seq![
        ("Ubuntu", Type::Ubuntu),
        ("Debian", Type::Debian),
        ("Arch", Type::Arch),
        ("CentOS", Type::CentOS),
        ("RedHatEnterprise", Type::RedHatEnterprise),
        ("RedHatEnterpriseServer", Type::RedHatEnterprise),
        ("Fedora", Type::Fedora),
        ("Amazon", Type::Amazon),
        ("AmazonAMI", Type::Amazon),
        ("SUSE", Type::SUSE),
    ]
}

/// The type a distributor identifier names; a generic Linux where it names none known.
pub open spec fn type_of_distributor(d: Option<Seq<char>>) -> Type {
    match d {
        Some(d) => match lookup_id(spec_distributor_table(), d, 0) {
            Some(t) => t,
            None => Type::Linux,
        },
        None => Type::Linux,
    }
}

/// The record that a distributor identifier and a release give: the type the distributor
/// names and the release as a custom version (unknown where there is none).
pub open spec fn spec_release_info(distro: Option<Seq<char>>, version: Option<Seq<char>>) -> SpecInfo {
    SpecInfo {
        os_type: type_of_distributor(distro),
        version: match version {
            Some(v) => SpecVersion {
                version: SpecVersionType::Custom(v),
                edition: None,
                codename: None,
            },
            None => unknown_version(),
        },
        bitness: Bitness::Unknown,
    }
}

/// The record that `lsb_release -a` output gives.
pub open spec fn spec_lsb_info(output: Seq<char>) -> SpecInfo {
    spec_release_info(
        regex_first_capture(distributor_pattern(), output),
        regex_first_capture(release_pattern(), output),
    )
}

/// Reads the distributor and the release from `lsb_release -a` output.
pub fn parse(output: &str) -> (r: LsbRelease)
    ensures
        opt_view(r.distro) == regex_first_capture(distributor_pattern(), output@),
        opt_view(r.version) == regex_first_capture(release_pattern(), output@),
{
    let distro = first_capture("Distributor ID:\\s(\\w+)", output);
    let version = first_capture("Release:\\s+([\\w]+[.]?[\\w]*)?", output);
    LsbRelease { distro, version }
}

/// Distributor identifiers of known distributions with their types.
pub fn distributor_table() -> (r: Vec<(&'static str, Type)>)
    ensures
        r@ == spec_distributor_table(),
{
    let r = vec![
        ("Ubuntu", Type::Ubuntu),
        ("Debian", Type::Debian),
        ("Arch", Type::Arch),
        ("CentOS", Type::CentOS),
        ("RedHatEnterprise", Type::RedHatEnterprise),
        ("RedHatEnterpriseServer", Type::RedHatEnterprise),
        ("Fedora", Type::Fedora),
        ("Amazon", Type::Amazon),
        ("AmazonAMI", Type::Amazon),
        ("SUSE", Type::SUSE),
    ];
    assert(r@ =~= spec_distributor_table());
    r
}

/// The type a distributor identifier names; see `type_of_distributor`.
pub fn os_type_of_distributor(distro: &Option<String>) -> (r: Type)
    ensures
        r == type_of_distributor(opt_view(*distro)),
{
    let d = match distro {
        Some(d) => d,
        None => {
            return Type::Linux;
        },
    };
    let table = distributor_table();
    let mut j: usize = 0;
    while j < table.len()
        invariant
            table@ == spec_distributor_table(),
            opt_view(*distro) == Some(d@),
            j <= table@.len(),
            lookup_id(table@, d@, 0) == lookup_id(table@, d@, j as int),
        decreases table@.len() - j,
    {
        let (name, t) = table[j];
        if same_text(name, d.as_str()) {
            return t;
        }
        j = j + 1;
    }
    Type::Linux
}

/// The record that the output of `lsb_release -a` gives, where `output` is none when the
/// command could not be run.
pub fn get(output: Option<String>) -> (r: Option<Info>)
    ensures
        match output {
            Some(o) => r matches Some(i) && i@ == spec_lsb_info(o@),
            None => r is None,
        },
{
    let output = match output {
        Some(o) => o,
        None => {
            return None;
        },
    };
    Some(info_of(parse(output.as_str())))
}

/// The record that a parsed `lsb_release -a` output gives; see `spec_release_info`.
pub fn info_of(release: LsbRelease) -> (r: Info)
    ensures
        r@ == spec_release_info(opt_view(release.distro), opt_view(release.version)),
{
    let os_type = os_type_of_distributor(&release.distro);
    let version = match release.version {
        Some(v) => Version::custom(v, None, None),
        None => Version::unknown(),
    };
    Info::new(os_type, version, Bitness::Unknown)
}

} // verus!
