//! The macOS probe: the product version from `SystemVersion.plist`, else from `sw_vers`.
use vstd::prelude::*;

use crate::bitness::Bitness;
use crate::info::{Info, SpecInfo};
use crate::matcher::{spec_find, Matcher};
use crate::os_type::Type;
use crate::text::{chars_of, opt_view, parse_u64, parse_u64_in, split, split_bounds};
use crate::version::{SpecVersion, SpecVersionType, Version, VersionType};

verus! {

/// The product version in the output of `sw_vers`.
pub open spec fn spec_parse(output: Seq<char>) -> Option<Seq<char>> {
    spec_find(Matcher::PrefixedVersion { prefix: "ProductVersion:" }, output)
}

/// The product version: the one that `SystemVersion.plist` names where it names one, else
/// the one in the output of `sw_vers`.
pub open spec fn spec_product_version(
    plist_version: Option<Seq<char>>,
    sw_vers_output: Option<Seq<char>>,
) -> Option<Seq<char>> {
    match plist_version {
        Some(v) => Some(v),
        None => match sw_vers_output {
            Some(o) => spec_parse(o),
            None => None,
        },
    }
}

/// The version record of a product version: semantic where it reads as
/// `major.minor[.patch]`, custom (the text itself) otherwise, unknown where there is none.
pub open spec fn spec_version(product_version: Option<Seq<char>>) -> SpecVersion {
    SpecVersion {
        version: match product_version {
            Some(v) => match spec_parse_semantic_version(v) {
                Some((a, b, c)) => SpecVersionType::Semantic(a, b, c),
                None => SpecVersionType::Custom(v),
            },
            None => SpecVersionType::Unknown,
        },
        edition: None,
        codename: None,
    }
}

/// The bitness that the machine architecture names, `fallback` where it names none known.
pub open spec fn spec_architecture_bitness(architecture: Option<Seq<char>>, fallback: Bitness) -> Bitness {
    match architecture {
        Some(a) => if a == "arm64"@ || a == "x86_64"@ {
            Bitness::X64
        } else if a == "i386"@ {
            Bitness::X32
        } else {
            fallback
        },
        None => fallback,
    }
}

/// What a version string reads as in the form `major.minor[.patch]`: two or three
/// `.`-separated parts, each read as `str::parse::<u64>` reads it (an optional `+`, then
/// decimal digits fitting in 64 bits); no trimming, and no empty part.
pub open spec fn spec_parse_semantic_version(version: Seq<char>) -> Option<(u64, u64, u64)> {
    let parts = split(version, '.');
    if parts.len() < 2 || parts.len() > 3 {
        None
    } else {
        match (
            parse_u64(parts[0]),
            parse_u64(parts[1]),
            if parts.len() > 2 {
                parse_u64(parts[2])
            } else {
                Some(0u64)
            },
        ) {
            (Some(a), Some(b), Some(c)) => Some((a, b, c)),
            _ => None,
        }
    }
}

/// Reads the product version from the output of `sw_vers`.
pub fn parse(sw_vers_output: &str) -> (r: Option<String>)
    ensures
        opt_view(r) == spec_parse(sw_vers_output@),
{
    (Matcher::PrefixedVersion { prefix: "ProductVersion:" }).find(sw_vers_output)
}

/// The product version; see `spec_product_version`. `plist_version` is the
/// `ProductVersion` value of `SystemVersion.plist`, none where the file could not be read
/// or has no such string; `sw_vers_output` is the output of `sw_vers`, none where it could
/// not be run (it is consulted only where `plist_version` is none).
pub fn product_version(plist_version: Option<String>, sw_vers_output: Option<String>) -> (r: Option<
    String,
>)
    ensures
        opt_view(r) == spec_product_version(opt_view(plist_version), opt_view(sw_vers_output)),
{
    match plist_version {
        Some(v) => Some(v),
        None => match sw_vers_output {
            Some(o) => parse(o.as_str()),
            None => None,
        },
    }
}

/// The version record of a product version; see `spec_version`.
pub fn version(product_version: Option<String>) -> (r: Version)
    ensures
        r@ == spec_version(opt_view(product_version)),
{
    let v = match product_version {
        Some(v) => v,
        None => {
            return Version::unknown();
        },
    };
    match parse_semantic_version(v.as_str()) {
        Some((major, minor, patch)) => Version::semantic(major, minor, patch, None, None),
        None => Version::new(VersionType::Custom(v), None, None),
    }
}

/// Reads a version in the form `major.minor[.patch]`; see `spec_parse_semantic_version`.
pub fn parse_semantic_version(version: &str) -> (r: Option<(u64, u64, u64)>)
    ensures
        r == spec_parse_semantic_version(version@),
{
    let cs = chars_of(version);
    let parts = split_bounds(&cs, 0, cs.len(), '.');
    proof {
        assert(cs@.subrange(0, cs@.len() as int) =~= version@);
    }
    if parts.len() < 2 || parts.len() > 3 {
        return None;
    }
    let major = match parse_u64_in(&cs, parts[0].0, parts[0].1) {
        Some(v) => v,
        None => {
            return None;
        },
    };
    let minor = match parse_u64_in(&cs, parts[1].0, parts[1].1) {
        Some(v) => v,
        None => {
            return None;
        },
    };
    let mut patch: u64 = 0;
    if parts.len() > 2 {
        match parse_u64_in(&cs, parts[2].0, parts[2].1) {
            Some(v) => {
                patch = v;
            },
            None => {
                return None;
            },
        }
    }
    Some((major, minor, patch))
}

/// The bitness that the machine architecture names; see `spec_architecture_bitness`.
pub fn architecture_bitness(architecture: &Option<String>, fallback: Bitness) -> (r: Bitness)
    ensures
        r == spec_architecture_bitness(opt_view(*architecture), fallback),
{
    match architecture {
        Some(a) => {
            if crate::text::same_text(a.as_str(), "arm64") || crate::text::same_text(a.as_str(), "x86_64") {
                Bitness::X64
            } else if crate::text::same_text(a.as_str(), "i386") {
                Bitness::X32
            } else {
                fallback
            }
        },
        None => fallback,
    }
}

/// Identifies macOS from its product version (see `product_version`), its machine
/// architecture, and the bitness found otherwise, used where the architecture names none.
pub fn current_platform(product_version: Option<String>, architecture: Option<String>, fallback: Bitness) -> (r:
    Info)
    ensures
        r@ == (SpecInfo {
            os_type: Type::Macos,
            version: spec_version(opt_view(product_version)),
            bitness: spec_architecture_bitness(opt_view(architecture), fallback),
        }),
{
    let bits = architecture_bitness(&architecture, fallback);
    Info::new(Type::Macos, version(product_version), bits)
}

} // verus!
