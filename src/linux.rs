//! The Linux probe: `lsb_release` first, the release files next, a generic Linux last.
use vstd::prelude::*;

use crate::bitness::Bitness;
use crate::file_release::{self, first_release, spec_distributions};
use crate::info::{info_of_type, with_bitness, Info, SpecInfo};
use crate::lsb_release::{self, spec_lsb_info};
use crate::os_type::Type;
use crate::text::opt_view;

verus! {

/// The record of a Linux host: the one that `lsb_release -a` output gives where the command
/// ran; else the one that the release files give; else a generic Linux of unknown version.
/// Its bitness is `bitness` whichever record was chosen.
pub open spec fn spec_linux_info(
    lsb_output: Option<Seq<char>>,
    release_files: Seq<Option<String>>,
    bitness: Bitness,
) -> SpecInfo {
    let chosen = match lsb_output {
        Some(o) => spec_lsb_info(o),
        None => match first_release(spec_distributions(), release_files, 0) {
            Some(i) => i,
            None => info_of_type(Type::Linux),
        },
    };
    with_bitness(chosen, bitness)
}

/// Identifies a Linux host from the output of `lsb_release -a` (none where the command could
/// not be run), the contents of the release files (`release_files[i]` for the file
/// `distributions()[i].path`, none where missing or unreadable; read only where `lsb_output`
/// is none) and the bitness found independently.
pub fn current_platform(
    lsb_output: Option<String>,
    release_files: &Vec<Option<String>>,
    bitness: Bitness,
) -> (r: Info)
    ensures
        r@ == spec_linux_info(opt_view(lsb_output), release_files@, bitness),
{
    let mut info = match lsb_release::get(lsb_output) {
        Some(i) => i,
        None => match file_release::get(release_files) {
            Some(i) => i,
            None => Info::with_type(Type::Linux),
        },
    };
    info.set_bitness(bitness);
    info
}

/// Where `lsb_release` ran, its record is the one used: the release files play no part.
pub proof fn lemma_lsb_release_preferred(
    output: Seq<char>,
    files: Seq<Option<String>>,
    other_files: Seq<Option<String>>,
    bitness: Bitness,
)
    ensures
        spec_linux_info(Some(output), files, bitness) == with_bitness(spec_lsb_info(output), bitness),
        spec_linux_info(Some(output), files, bitness) == spec_linux_info(
            Some(output),
            other_files,
            bitness,
        ),
{
}

/// The bitness given is the one reported, whatever the source of the rest of the record.
pub proof fn lemma_bitness_overrides(
    lsb_output: Option<Seq<char>>,
    files: Seq<Option<String>>,
    bitness: Bitness,
)
    ensures
        spec_linux_info(lsb_output, files, bitness).bitness == bitness,
{
}

} // verus!
