//! The Windows version record together with the edition it names, by the edition table
//! that predates release ids.
use vstd::prelude::*;

use crate::text::opt_view;
use crate::windows::{
    edition_5_2, spec_edition_5_2, OsVersionInfo, ServerFacts, VER_NT_WORKSTATION,
};

verus! {

/// Holds the current system's version record and the edition it names.
pub struct Win32Version {
    /// The version record, none where it could not be read.
    pub osvi: Option<OsVersionInfo>,
    /// The edition.
    pub edition: Option<String>,
}

/// The edition that version record `v` names in this table: as the release-id table for
/// Windows 2000 to 8.1, every Windows 10 server is Server 2016, and Windows 5.2 with the R2
/// metric set is Server 2003 R2.
pub open spec fn spec_win32_edition(v: OsVersionInfo, facts: ServerFacts) -> Option<Seq<char>> {
    let ws = v.product_type == VER_NT_WORKSTATION;
    let (major, minor) = (v.major_version, v.minor_version);
    if major == 10 {
        if minor == 0 {
            Some(if ws { "Windows 10"@ } else { "Windows Server 2016"@ })
        } else {
            None
        }
    } else if major == 6 {
        if minor == 3 {
            Some(if ws { "Windows 8.1"@ } else { "Windows Server 2012 R2"@ })
        } else if minor == 2 {
            Some(if ws { "Windows 8"@ } else { "Windows Server 2012"@ })
        } else if minor == 1 {
            Some(if ws { "Windows 7"@ } else { "Windows Server 2008 R2"@ })
        } else if minor == 0 {
            Some(if ws { "Windows Vista"@ } else { "Windows Server 2008"@ })
        } else {
            None
        }
    } else if major == 5 {
        if minor == 2 {
            if facts.server_r2 == 0 {
                Some(spec_edition_5_2(v, facts))
            } else {
                Some("Windows Server 2003 R2"@)
            }
        } else if minor == 1 {
            Some("Windows XP"@)
        } else if minor == 0 {
            Some("Windows 2000"@)
        } else {
            None
        }
    } else {
        None
    }
}

impl Win32Version {
    /// Examines the version record to determine the Windows edition; see
    /// `spec_win32_edition`. Without a version record the value is returned as it is.
    pub fn edition(self, facts: ServerFacts) -> (r: Self)
        ensures
            r.osvi == self.osvi,
            opt_view(r.edition) == match self.osvi {
                None => opt_view(self.edition),
                Some(v) => spec_win32_edition(v, facts),
            },
    {
        let v = match self.osvi {
            None => {
                return self;
            },
            Some(v) => v,
        };
        let ws = v.product_type == VER_NT_WORKSTATION;
        let major = v.major_version;
        let minor = v.minor_version;
        let edition = if major == 10 {
            if minor == 0 {
                Some(if ws { "Windows 10" } else { "Windows Server 2016" }.to_owned())
            } else {
                None
            }
        } else if major == 6 {
            if minor == 3 {
                Some(if ws { "Windows 8.1" } else { "Windows Server 2012 R2" }.to_owned())
            } else if minor == 2 {
                Some(if ws { "Windows 8" } else { "Windows Server 2012" }.to_owned())
            } else if minor == 1 {
                Some(if ws { "Windows 7" } else { "Windows Server 2008 R2" }.to_owned())
            } else if minor == 0 {
                Some(if ws { "Windows Vista" } else { "Windows Server 2008" }.to_owned())
            } else {
                None
            }
        } else if major == 5 {
            if minor == 2 {
                if facts.server_r2 == 0 {
                    Some(edition_5_2(&v, facts))
                } else {
                    Some("Windows Server 2003 R2".to_owned())
                }
            } else if minor == 1 {
                Some("Windows XP".to_owned())
            } else if minor == 0 {
                Some("Windows 2000".to_owned())
            } else {
                None
            }
        } else {
            None
        };
        Win32Version { osvi: self.osvi, edition }
    }
}

impl Default for Win32Version {
    fn default() -> (r: Self)
        ensures
            r.osvi is None,
            r.edition is None,
    {
        Win32Version { osvi: None, edition: None }
    }
}

} // verus!
