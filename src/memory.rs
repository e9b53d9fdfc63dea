//! The outcome of a copy out of another process's memory.
use vstd::prelude::*;
use crate::error::OsError;

verus! {

/// The outcome of a read of another process's memory, from what the copy reported: where it
/// succeeded, the number of bytes it wrote, which may fall short of the request; where it
/// failed, the error with `last_error`, the code that the system reported for it.
pub fn read_outcome(succeeded: bool, bytes_read: usize, last_error: i32) -> (r: Result<usize, OsError>)
    ensures
        succeeded ==> r == Ok::<usize, OsError>(bytes_read),
        !succeeded ==> r == Err::<usize, OsError>(OsError { code: last_error }),
{
    if succeeded {
        Ok(bytes_read)
    } else {
        Err(OsError::from_raw_os_error(last_error))
    }
}

} // verus!
