//! The offsets that the system can be asked for.

use vstd::prelude::*;

verus! {

/// The largest offset that this system can be asked for.
pub fn max_file_offset() -> (r: i64)
    ensures
        r == libc::off_t::MAX,
        r >= 0,
{
    libc::off_t::MAX as i64
}

} // verus!
