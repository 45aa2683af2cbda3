use vstd::prelude::*;

pub mod errors;
pub mod filter;
pub mod instants;
pub mod pattern;
pub mod query;
pub mod select;
pub mod text;

verus! {

/// Number of bytes of the tail window read from a single log file.
pub const MAX_READ_SIZE: u64 = 2 * 1024 * 1024;

/// Start offset of the tail window: the last `window` bytes of a file of
/// `file_size` bytes, or the whole file when it is smaller than the window.
pub fn tail_start(file_size: u64, window: u64) -> (start: u64)
    ensures
        file_size > window ==> start == file_size - window,
        file_size <= window ==> start == 0,
{
    if file_size > window {
        file_size - window
    } else {
        0
    }
}

} // verus!
