//! Word width of the operating system.
use vstd::prelude::*;

verus! {

/// Operating system architecture in terms of how many bits compose the basic values it can
/// deal with.
#[derive(Debug, Copy, Clone, PartialEq, Eq, PartialOrd, Ord, Hash, Structural)]
pub enum Bitness {
    /// Unknown bitness (unable to determine).
    Unknown,
    /// 32-bit.
    X32,
    /// 64-bit.
    X64,
}

/// The name under which a bitness is displayed.
pub open spec fn bitness_name(t: Bitness) -> Seq<char> {
    match t {
        Bitness::Unknown => "unknown bitness"@,
        Bitness::X32 => "32-bit"@,
        Bitness::X64 => "64-bit"@,
    }
}

impl Bitness {
    /// The display name of this value.
    pub fn to_string(&self) -> (r: String)
        ensures
            r@ == bitness_name(*self),
    {
        match self {
            Bitness::Unknown => "unknown bitness",
            Bitness::X32 => "32-bit",
            Bitness::X64 => "64-bit",
        }.to_owned()
    }
}

} // verus!

verus! {

/// The bitness that the output of `getconf LONG_BIT` reports; `output` is none where the
/// command could not be run.
pub open spec fn spec_from_long_bit(output: Option<Seq<u8>>) -> Bitness {
    match output {
        Some(o) => if o == seq![51u8, 50u8, 10u8] {
            Bitness::X32
        } else if o == seq![54u8, 52u8, 10u8] {
            Bitness::X64
        } else {
            Bitness::Unknown
        },
        None => Bitness::Unknown,
    }
}

/// The bitness that the output of `getconf LONG_BIT` reports: `32\n` or `64\n`.
pub fn from_long_bit(output: Option<Vec<u8>>) -> (r: Bitness)
    ensures
        r == spec_from_long_bit(
            match output {
                Some(o) => Some(o@),
                None => None,
            },
        ),
{
    match output {
        Some(o) => {
            if o.len() == 3 && o[0] == 51u8 && o[1] == 50u8 && o[2] == 10u8 {
                assert(o@ =~= seq![51u8, 50u8, 10u8]);
                Bitness::X32
            } else if o.len() == 3 && o[0] == 54u8 && o[1] == 52u8 && o[2] == 10u8 {
                assert(o@ =~= seq![54u8, 52u8, 10u8]);
                Bitness::X64
            } else {
                Bitness::Unknown
            }
        },
        None => Bitness::Unknown,
    }
}

} // verus!
