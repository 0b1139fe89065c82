//! The backend choice of the query surface.
use vstd::prelude::*;
use vstd::string::StringSliceAdditionalSpecFns;

use crate::Error;
use crate::Result;

verus! {

/// The platform backends.
#[derive(Clone, Copy, Debug, PartialEq, Eq, Structural)]
pub enum OsBackends {
    /// The filesystem tree of scalar attribute files.
    Sysfs,
    /// The UCSI debugfs command channel.
    UcsiDebugfs,
}

pub open spec fn ascii_lower(b: u8) -> u8 {
    if 65 <= b <= 90 {
        (b + 32) as u8
    } else {
        b
    }
}

/// Whether `s` is `name` up to ASCII case (`name` in lower case).
pub open spec fn same_name(s: Seq<u8>, name: Seq<u8>) -> bool {
    s.len() == name.len() && forall|i: int| 0 <= i < s.len() ==> ascii_lower(#[trigger] s[i]) == name[i]
}

fn eq_ignore_case(s: &[u8], name: &[u8]) -> (r: bool)
    ensures
        r == same_name(s@, name@),
{
    if s.len() != name.len() {
        return false;
    }
    let mut i: usize = 0;
    while i < s.len()
        invariant
            s@.len() == name@.len(),
            i <= s@.len(),
            forall|j: int| 0 <= j < i ==> ascii_lower(#[trigger] s@[j]) == name@[j],
        decreases s@.len() - i,
    {
        let b = s[i];
        let lower = if 65 <= b && b <= 90 {
            b + 32
        } else {
            b
        };
        if lower != name[i] {
            return false;
        }
        i = i + 1;
    }
    true
}

impl OsBackends {
    /// The backend named `s` ("sysfs" or "ucsi_debugfs", in any ASCII case).
    pub fn from_name(s: &str) -> (r: Result<OsBackends>)
        ensures
            same_name(s.spec_bytes(), "sysfs".spec_bytes()) ==> r == Ok::<OsBackends, Error>(
                OsBackends::Sysfs,
            ),
            !same_name(s.spec_bytes(), "sysfs".spec_bytes()) && same_name(
                s.spec_bytes(),
                "ucsi_debugfs".spec_bytes(),
            ) ==> r == Ok::<OsBackends, Error>(OsBackends::UcsiDebugfs),
            !same_name(s.spec_bytes(), "sysfs".spec_bytes()) && !same_name(
                s.spec_bytes(),
                "ucsi_debugfs".spec_bytes(),
            ) ==> r == Err::<OsBackends, Error>(Error::NotSupported),
    {
        let b = s.as_bytes();
        if eq_ignore_case(b, "sysfs".as_bytes()) {
            Ok(OsBackends::Sysfs)
        } else if eq_ignore_case(b, "ucsi_debugfs".as_bytes()) {
            Ok(OsBackends::UcsiDebugfs)
        } else {
            Err(Error::NotSupported)
        }
    }
}

} // verus!
