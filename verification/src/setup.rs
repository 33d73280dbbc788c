//! What is to be found out about a file before it is used.

use crate::align::{is_power_of_two, Alignments};
use vstd::arithmetic::power2::*;
use vstd::prelude::*;

verus! {

/// Where the size of a file is to be found.
#[derive(Clone, Copy, Debug, PartialEq, Eq, Structural)]
pub enum SizeSource {
    /// Ask the device for it.
    Device,
    /// Take the length that the metadata gives.
    Metadata,
}

/// Tells where the size of a file is to be found.  For devices, metadata does not give it on some
/// platforms.
pub fn file_size_source(is_block_device: bool, is_char_device: bool) -> (r: SizeSource)
    ensures
        r is Device <==> is_block_device || is_char_device,
{
    if is_block_device || is_char_device {
        SizeSource::Device
    } else {
        SizeSource::Metadata
    }
}

/// The size of a device of so many blocks.
pub fn device_size(block_size: u32, block_count: u64) -> (r: u64)
    requires
        block_size * block_count <= u64::MAX,
    ensures
        r == block_size * block_count,
{
    block_size as u64 * block_count
}

/// Whether the host cache is bypassed: either that was requested, or the status flags of the file
/// show it, if it was possible to get them.  `direct_flag` is the flag in question.
pub fn is_direct_io(requested: bool, status_flags: i32, direct_flag: i32) -> (r: bool)
    ensures
        r == (requested || (status_flags > 0 && status_flags & direct_flag != 0)),
{
    requested || (status_flags > 0 && (status_flags & direct_flag) != 0)
}

/// The minimal request alignment for direct I/O, given what the system reports it to be, if it
/// does.
pub open spec fn min_dio_req_align(reported: Option<int>) -> int {
    match reported {
        Some(alignment) if is_pow2(alignment) => alignment,
        _ => 1,
    }
}

/// The minimal request alignment is a power of two whatever the system reports, and it is what the
/// system reports exactly if that is a power of two; otherwise it is as if the system reported 1.
pub proof fn law_reported_alignment_is_used(alignment: int)
    ensures
        is_pow2(min_dio_req_align(Some(alignment))),
        min_dio_req_align(Some(alignment)) == alignment <==> is_pow2(alignment),
        !is_pow2(alignment) ==> min_dio_req_align(Some(alignment)) == 1,
        min_dio_req_align(None) == 1,
{
    crate::align::lemma_pow2_constants();
}

/// The minimal request alignment for direct I/O, given what the system reports it to be, if it
/// does.  What is no power of two is ignored; the alignment is probed then, from 1 on.
pub fn get_min_dio_req_align(reported: Option<i32>) -> (r: usize)
    ensures
        r == match reported {
            Some(alignment) if is_pow2(alignment as int) => alignment as usize,
            _ => 1,
        },
        is_pow2(r as int),
        r == min_dio_req_align(
            match reported {
                Some(alignment) => Some(alignment as int),
                None => None,
            },
        ),
{
    proof {
        crate::align::lemma_pow2_constants();
        if reported is Some && reported->0 <= 0 {
            reveal(is_pow2);
        }
    }
    match reported {
        Some(alignment) => if alignment > 0 && is_power_of_two(alignment as usize) {
            alignment as usize
        } else {
            1
        },
        None => 1,
    }
}

/// As [`get_min_dio_req_align`], for systems that report an unsigned number.
pub fn get_min_dio_req_align_unsigned(reported: Option<u32>) -> (r: usize)
    ensures
        r == match reported {
            Some(alignment) if is_pow2(alignment as int) => alignment as usize,
            _ => 1,
        },
        is_pow2(r as int),
        r == min_dio_req_align(
            match reported {
                Some(alignment) => Some(alignment as int),
                None => None,
            },
        ),
{
    proof {
        crate::align::lemma_pow2_constants();
    }
    match reported {
        Some(alignment) => if is_power_of_two(alignment as usize) {
            alignment as usize
        } else {
            1
        },
        None => 1,
    }
}

/// The minimal memory alignment for direct I/O.  No system reports it reliably, so it is probed,
/// from 1 on.
pub fn get_min_dio_mem_align() -> (r: usize)
    ensures
        r == 1,
{
    1
}

/// The alignments from which on to probe: with direct I/O, what is known to be the minimal request
/// alignment then; otherwise there is none.
pub fn probe_start(direct_io: bool, min_dio_req_align: usize) -> (r: Alignments)
    ensures
        r.req_align == if direct_io {
            min_dio_req_align
        } else {
            1
        },
        r.mem_align == 1,
{
    if direct_io {
        Alignments { req_align: min_dio_req_align, mem_align: get_min_dio_mem_align() }
    } else {
        Alignments { req_align: 1, mem_align: 1 }
    }
}

/// The alignments to use where they cannot be probed: 4096, or what is known to be the minimum if
/// that is larger.
pub fn unprobed_alignments(min: Alignments) -> (r: Alignments)
    ensures
        r.req_align == crate::align::max_int(min.req_align as int, 4096),
        r.mem_align == crate::align::max_int(min.mem_align as int, 4096),
        min.valid() ==> r.valid(),
{
    proof {
        crate::align::lemma_pow2_constants();
    }
    Alignments {
        req_align: if min.req_align >= 4096 {
            min.req_align
        } else {
            4096
        },
        mem_align: if min.mem_align >= 4096 {
            min.mem_align
        } else {
            4096
        },
    }
}

} // verus!
