//! Verified core of a tldr-style documentation viewer: a line tokenizer that
//! classifies each line of a page into a small closed set of roles, and the
//! decision logic of a cache manager that mirrors a remote page archive on
//! disk. I/O (network fetch, archive unpacking, file probing) stays with the
//! caller; this crate states and proves what is computed from the values the
//! caller hands in.

use vstd::prelude::*;

pub mod cache;
pub mod error;
pub mod tokenizer;
pub mod types;

verus! {

use crate::types::OsType;

/// Operating-system tag derived from a platform name as the Rust toolchain
/// spells it (`"linux"`, `"macos"`, ...). Unknown platforms map to `Other`.
pub open spec fn os_from_name(name: Seq<char>) -> OsType {
    if name == "linux"@ {
        OsType::Linux
    } else if name == "macos"@ {
        OsType::OsX
    } else {
        OsType::Other
    }
}

/// Character-by-character equality of two string slices.
pub fn str_eq(a: &str, b: &str) -> (r: bool)
    ensures
        r == (a@ == b@),
{
    let n = a.unicode_len();
    if n != b.unicode_len() {
        return false;
    }
    let mut i: usize = 0;
    while i < n
        invariant
            i <= n,
            a@.len() == n,
            b@.len() == n,
            forall|j: int| 0 <= j < i ==> a@[j] == b@[j],
        decreases n - i,
    {
        if a.get_char(i) != b.get_char(i) {
            return false;
        }
        i = i + 1;
    }
    proof {
        assert(a@ =~= b@);
    }
    true
}

/// Map a runtime platform name to the tag that scopes page lookups.
pub fn get_os(platform: &str) -> (r: OsType)
    ensures
        r == os_from_name(platform@),
{
    if str_eq(platform, "linux") {
        OsType::Linux
    } else if str_eq(platform, "macos") {
        OsType::OsX
    } else {
        OsType::Other
    }
}

/// Logging hook kept for callers; the viewer core itself emits no log output,
/// so there is nothing to set up.
pub fn init_log() {
}

} // verus!
