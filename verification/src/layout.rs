//! The number of storage keys that each contract version defines.
use vstd::prelude::*;

verus! {

/// The contract versions whose storage layout is recorded.
pub open spec fn recorded_version(version: int) -> bool {
    5 <= version <= 9
}

/// The number of storage key variants of a recorded contract version.
///
/// Version 5 froze the first 15 keys and version 6 brought them to 29. The keys after those were
/// appended without a version of their own, so versions 7 to 9 share one count.
pub open spec fn datakey_count(version: int) -> int
    recommends
        recorded_version(version),
{
    if version == 5 {
        15
    } else if version == 6 {
        29
    } else {
        36
    }
}

/// Returns the number of storage key variants of contract version `version`.
pub fn expected_datakey_count_for_version(version: u32) -> (count: usize)
    requires
        recorded_version(version as int),
    ensures
        count == datakey_count(version as int),
{
    match version {
        5 => 15,
        6 => 29,
        _ => 36,
    }
}

} // verus!
