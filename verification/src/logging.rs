//! Rotation rule of the log file.
use vstd::prelude::*;

verus! {

/// Size in bytes past which the log file is started anew.
pub const MAX_LOG_SIZE: u64 = 5 * 1024 * 1024;

/// Whether the log file must be emptied before the next line is written: only
/// when its size is known and exceeds `MAX_LOG_SIZE`.
pub fn truncate_before_write(current_len: Option<u64>) -> (truncate: bool)
    ensures
        truncate == (current_len matches Some(len) && len > MAX_LOG_SIZE),
{
    match current_len {
        Some(len) => len > MAX_LOG_SIZE,
        None => false,
    }
}

} // verus!
