use vstd::prelude::*;

verus! {

/// How long a downloaded catalog stays fresh, in seconds: seven days.
pub const STALENESS_SECS: u64 = 7 * 24 * 3600;

/// Whether the cached catalog must be downloaded again. `modified` is the
/// time of its last change in seconds since the epoch, absent when the file
/// or its time cannot be read; `now` is the current time in the same unit.
/// The copy is stale when it was changed more than the staleness window
/// before `now`.
pub fn needs_download(modified: Option<u64>, now: u64) -> (r: bool)
    ensures
        r == match modified {
            None => true,
            Some(m) => m < now - STALENESS_SECS,
        },
{
    match modified {
        None => true,
        Some(m) => now >= STALENESS_SECS && m < now - STALENESS_SECS,
    }
}

} // verus!
