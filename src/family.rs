//! Broad categories of operating systems.
use vstd::prelude::*;

verus! {

/// A general category for operating system to place them into 'families'.
/// Example of use case is when program logic needs to perform an operation
/// on linux, but does not care which distro it is.
#[allow(non_camel_case_types)]
#[derive(Debug, Copy, Clone, PartialEq, Eq, PartialOrd, Ord, Hash, Structural)]
pub enum Family {
    /// Berkeley Software Distributions.
    BSD,
    /// Linux operating systems of all types.
    Linux,
    /// Apple's macOS.
    MacOS,
    /// NT based operating systems.
    WindowsNT,
    /// SunOS and systems derived from it, such as illumos.
    SunOS,
    /// Operating systems whose family is unknown.
    Unknown,
}

impl Default for Family {
    fn default() -> (r: Self)
        ensures
            r == Family::Unknown,
    {
        Family::Unknown
    }
}

/// The name under which a family is displayed.
pub open spec fn family_name(t: Family) -> Seq<char> {
    match t {
        Family::BSD => "BSD"@,
        Family::Linux => "Linux"@,
        Family::MacOS => "MacOS"@,
        Family::WindowsNT => "Windows NT"@,
        Family::SunOS => "SunOS"@,
        Family::Unknown => "Unknown"@,
    }
}

impl Family {
    /// The display name of this value.
    pub fn to_string(&self) -> (r: String)
        ensures
            r@ == family_name(*self),
    {
        match self {
            Family::BSD => "BSD",
            Family::Linux => "Linux",
            Family::MacOS => "MacOS",
            Family::WindowsNT => "Windows NT",
            Family::SunOS => "SunOS",
            Family::Unknown => "Unknown",
        }.to_owned()
    }
}

} // verus!
