//! Discarding ranges of a file.
//!
//! Every way of discarding a range also makes it read as zeroes, which is why writing zeroes is
//! done by discarding.

use crate::offset::max_file_offset;
use vstd::prelude::*;

verus! {

/// Whether a range can be discarded by cutting the file off.
#[derive(Clone, Copy, Debug, PartialEq, Eq, Structural)]
pub enum TruncatePlan {
    /// The range lies beyond the end of the file: there is nothing to do.
    Nothing,
    /// The range reaches the end of the file: set the length of the file to this.
    SetLen(u64),
    /// The range ends before the end of the file, so another way is needed.
    NotAtEnd,
}

/// How to discard a range.
#[derive(Clone, Copy, Debug, PartialEq, Eq, Structural)]
pub enum DiscardPlan {
    /// There is nothing to do.
    Nothing,
    /// Set the length of the file to this.
    SetLen(u64),
    /// Deallocate `length` bytes from `offset` on, leaving the length of the file as it is.
    PunchHole { offset: i64, length: i64 },
    /// Zero the range from `offset` to before `end`.
    ZeroRange { offset: i64, end: i64 },
    /// The range cannot be expressed: leave it as it is.
    Skip,
}

/// How to discard a range of a file of this size by cutting the file off, if that is possible.
pub open spec fn truncate_plan(size: u64, offset: u64, length: u64) -> TruncatePlan {
    if offset >= size {
        TruncatePlan::Nothing
    } else if offset + length >= size {
        TruncatePlan::SetLen(offset)
    } else {
        TruncatePlan::NotAtEnd
    }
}

/// How to discard a range of a file of this size on a system that takes offsets and lengths up to
/// `max_offset` and can deallocate parts of a file.
pub open spec fn punching_plan(size: u64, offset: u64, length: u64, max_offset: i64) -> DiscardPlan {
    match truncate_plan(size, offset, length) {
        TruncatePlan::Nothing => DiscardPlan::Nothing,
        TruncatePlan::SetLen(len) => DiscardPlan::SetLen(len),
        TruncatePlan::NotAtEnd => if offset > max_offset || length > max_offset {
            DiscardPlan::Skip
        } else {
            DiscardPlan::PunchHole { offset: offset as i64, length: length as i64 }
        },
    }
}

/// How to discard a range of a file of this size on a system that is told where to begin and where
/// to end zeroing.  The byte after the range is zeroed, too.
pub open spec fn zeroing_plan(size: u64, offset: u64, length: u64) -> DiscardPlan {
    match truncate_plan(size, offset, length) {
        TruncatePlan::Nothing => DiscardPlan::Nothing,
        TruncatePlan::SetLen(len) => DiscardPlan::SetLen(len),
        TruncatePlan::NotAtEnd => if offset > i64::MAX || length > i64::MAX {
            DiscardPlan::Skip
        } else {
            DiscardPlan::ZeroRange {
                offset: offset as i64,
                end: crate::align::min_int(offset + length + 1, i64::MAX as int) as i64,
            }
        },
    }
}

/// Decides whether a range can be discarded by cutting the file off.
pub fn plan_truncate(size: u64, offset: u64, length: u64) -> (r: TruncatePlan)
    ensures
        r == truncate_plan(size, offset, length),
{
    if offset >= size {
        return TruncatePlan::Nothing;
    }
    // Where the end of the range cannot be represented, it is beyond the end of the file.
    let end = match offset.checked_add(length) {
        Some(end) => end,
        None => size,
    };
    if end < size {
        TruncatePlan::NotAtEnd
    } else {
        TruncatePlan::SetLen(offset)
    }
}

/// Decides how to discard a range by deallocating it.
pub fn plan_punching(size: u64, offset: u64, length: u64, max_offset: i64) -> (r: DiscardPlan)
    requires
        max_offset >= 0,
    ensures
        r == punching_plan(size, offset, length, max_offset),
{
    match plan_truncate(size, offset, length) {
        TruncatePlan::Nothing => DiscardPlan::Nothing,
        TruncatePlan::SetLen(len) => DiscardPlan::SetLen(len),
        TruncatePlan::NotAtEnd => {
            let max = max_offset as u64;
            if offset > max || length > max {
                DiscardPlan::Skip
            } else {
                DiscardPlan::PunchHole { offset: offset as i64, length: length as i64 }
            }
        },
    }
}

/// Decides how to discard a range by deallocating it on this system.
pub fn plan_punching_on_system(size: u64, offset: u64, length: u64) -> (r: DiscardPlan)
    ensures
        r == punching_plan(size, offset, length, libc::off_t::MAX as i64),
{
    plan_punching(size, offset, length, max_file_offset())
}

/// Decides how to discard a range by zeroing it.
pub fn plan_zeroing(size: u64, offset: u64, length: u64) -> (r: DiscardPlan)
    ensures
        r == zeroing_plan(size, offset, length),
{
    match plan_truncate(size, offset, length) {
        TruncatePlan::Nothing => DiscardPlan::Nothing,
        TruncatePlan::SetLen(len) => DiscardPlan::SetLen(len),
        TruncatePlan::NotAtEnd => {
            let max = i64::MAX as u64;
            if offset > max || length > max {
                return DiscardPlan::Skip;
            }
            let end: u64 = offset + length;
            DiscardPlan::ZeroRange {
                offset: offset as i64,
                end: if end < max {
                    (end + 1) as i64
                } else {
                    i64::MAX
                },
            }
        },
    }
}

/// A range is cut off exactly if it begins before the end of the file and reaches it, and then the
/// file ends where the range begins; exactly if it begins at or beyond the end, there is nothing to
/// do; and exactly if it ends before the end, another way is needed.
pub proof fn law_range_at_the_end_is_cut_off(size: u64, offset: u64, length: u64)
    ensures
        truncate_plan(size, offset, length) is Nothing <==> size <= offset,
        truncate_plan(size, offset, length) is NotAtEnd <==> offset + length < size,
        truncate_plan(size, offset, length) is SetLen <==> offset < size <= offset + length,
        truncate_plan(size, offset, length) matches TruncatePlan::SetLen(len) ==> len == offset,
{
}

/// On a system that can deallocate parts of a file, a range that ends before the end of the file is
/// deallocated, and it is exactly this range that is; it is left as it is exactly if the system
/// cannot be asked for it.  Such a system is never asked to zero a range in another way.
pub proof fn law_range_is_deallocated(size: u64, offset: u64, length: u64, max_offset: i64)
    requires
        max_offset >= 0,
    ensures
        ({
            let plan = punching_plan(size, offset, length, max_offset);
            let askable = offset <= max_offset && length <= max_offset;
            &&& plan is Nothing <==> size <= offset
            &&& plan is SetLen <==> offset < size <= offset + length
            &&& plan matches DiscardPlan::SetLen(len) ==> len == offset
            &&& plan is PunchHole <==> offset + length < size && askable
            &&& plan matches DiscardPlan::PunchHole { offset: from, length: len } ==> from == offset
                && len == length
            &&& plan is Skip <==> offset + length < size && !askable
            &&& !(plan is ZeroRange)
        }),
{
}

/// On a system that can zero parts of a file, a range that ends before the end of the file is
/// zeroed from its beginning on, up to and including the byte after it where that can be expressed;
/// it is left as it is exactly if its offset or its length cannot be expressed.  Such a system is
/// never asked to deallocate a range.
pub proof fn law_range_is_zeroed(size: u64, offset: u64, length: u64)
    ensures
        ({
            let plan = zeroing_plan(size, offset, length);
            let askable = offset <= i64::MAX && length <= i64::MAX;
            &&& plan is Nothing <==> size <= offset
            &&& plan is SetLen <==> offset < size <= offset + length
            &&& plan matches DiscardPlan::SetLen(len) ==> len == offset
            &&& plan is ZeroRange <==> offset + length < size && askable
            &&& plan matches DiscardPlan::ZeroRange { offset: from, end } ==> {
                &&& from == offset
                &&& offset + length < i64::MAX ==> end == offset + length + 1
                &&& offset + length >= i64::MAX ==> end == i64::MAX
            }
            &&& plan is Skip <==> offset + length < size && !askable
            &&& !(plan is PunchHole)
        }),
{
}

/// The file after a plan has been carried out.
pub open spec fn carried_out(contents: Seq<u8>, plan: DiscardPlan) -> Seq<u8> {
    match plan {
        DiscardPlan::Nothing | DiscardPlan::Skip => contents,
        DiscardPlan::SetLen(len) => crate::contents::resized(contents, len as nat),
        DiscardPlan::PunchHole { offset, length } => crate::contents::zeroed(
            contents,
            offset as int,
            offset + length,
        ),
        DiscardPlan::ZeroRange { offset, end } => crate::contents::zeroed(
            contents,
            offset as int,
            end as int,
        ),
    }
}

/// What the plans come to: setting the length sets it and leaves what is before the new end; to
/// deallocate or to zero a range makes it read as zeroes and leaves the length and all other bytes;
/// and otherwise nothing is changed.  The known size of the file is lowered to the length that is
/// set, and otherwise remains.
pub proof fn law_plans_are_carried_out(contents: Seq<u8>, size: u64, plan: DiscardPlan, i: int)
    requires
        0 <= i,
    ensures
        ({
            let after = carried_out(contents, plan);
            let byte = crate::contents::byte_at(contents, i);
            match plan {
                DiscardPlan::Nothing | DiscardPlan::Skip => after == contents,
                DiscardPlan::SetLen(len) => {
                    &&& after.len() == len
                    &&& i < len ==> crate::contents::byte_at(after, i) == byte
                },
                DiscardPlan::PunchHole { offset, length } => {
                    &&& after.len() == contents.len()
                    &&& crate::contents::byte_at(after, i) == if offset <= i < offset + length {
                        0
                    } else {
                        byte
                    }
                },
                DiscardPlan::ZeroRange { offset, end } => {
                    &&& after.len() == contents.len()
                    &&& crate::contents::byte_at(after, i) == if offset <= i < end {
                        0
                    } else {
                        byte
                    }
                },
            }
        }),
        match plan {
            DiscardPlan::SetLen(len) if len < size => size_after(size, plan) == len,
            _ => size_after(size, plan) == size,
        },
{
}

/// A range that has been discarded reads as zeroes, and discarding it has changed no other byte,
/// unless the plan was to leave the range as it is.
///
/// `size` is the known size of the file, which is not below its length.
pub proof fn law_punched_range_reads_as_zeroes(
    contents: Seq<u8>,
    size: u64,
    offset: u64,
    length: u64,
    max_offset: i64,
    i: int,
)
    requires
        contents.len() <= size,
        max_offset >= 0,
        !(punching_plan(size, offset, length, max_offset) is Skip),
    ensures
        ({
            let after = carried_out(contents, punching_plan(size, offset, length, max_offset));
            crate::contents::byte_at(after, i) == if offset <= i < offset + length {
                0
            } else {
                crate::contents::byte_at(contents, i)
            }
        }),
{
}

/// No range is left as it is that reaches into a file whose size is an offset that the system can
/// be asked for.
pub proof fn law_no_range_is_skipped(size: u64, offset: u64, length: u64, max_offset: i64)
    requires
        size <= max_offset,
    ensures
        !(punching_plan(size, offset, length, max_offset) is Skip),
        !(zeroing_plan(size, offset, length) is Skip),
{
}

/// A range that has been discarded by zeroing it reads as zeroes, unless the plan was to leave the
/// range as it is, or the range has an end that zeroing cannot be told of.  Discarding it has
/// changed no other byte, but for the byte after the range where that is zeroed, too.
pub proof fn law_zeroed_range_reads_as_zeroes(
    contents: Seq<u8>,
    size: u64,
    offset: u64,
    length: u64,
    i: int,
)
    requires
        contents.len() <= size,
        !(zeroing_plan(size, offset, length) is Skip),
        zeroing_plan(size, offset, length) is ZeroRange ==> offset + length <= i64::MAX,
    ensures
        ({
            let plan = zeroing_plan(size, offset, length);
            let after = carried_out(contents, plan);
            crate::contents::byte_at(after, i) == if offset <= i < offset + length {
                0
            } else if plan is ZeroRange && i == offset + length && i < i64::MAX {
                0
            } else {
                crate::contents::byte_at(contents, i)
            }
        }),
{
}

/// The known size of a file after a plan has been carried out, `size` being that from before.
pub open spec fn size_after(size: u64, plan: DiscardPlan) -> u64 {
    match plan {
        DiscardPlan::SetLen(len) => crate::align::min_int(size as int, len as int) as u64,
        _ => size,
    }
}

/// Discarding a range never makes a file longer, and the known size of the file remains its
/// length.
pub proof fn law_discard_keeps_size_right(
    contents: Seq<u8>,
    size: u64,
    offset: u64,
    length: u64,
    max_offset: i64,
)
    requires
        contents.len() == size,
    ensures
        ({
            let plan = punching_plan(size, offset, length, max_offset);
            let after = carried_out(contents, plan);
            &&& after.len() <= contents.len()
            &&& after.len() == size_after(size, plan)
        }),
        ({
            let plan = zeroing_plan(size, offset, length);
            let after = carried_out(contents, plan);
            &&& after.len() <= contents.len()
            &&& after.len() == size_after(size, plan)
        }),
{
}

/// After a range at the end of a file has been discarded by cutting the file off, there is nothing
/// to do to discard anything from there on.
pub proof fn law_cut_off_file_stays_cut_off(
    size: u64,
    offset: u64,
    length: u64,
    later_offset: u64,
    later_length: u64,
)
    requires
        truncate_plan(size, offset, length) == TruncatePlan::SetLen(offset),
        later_offset >= offset,
    ensures
        truncate_plan(
            size_after(size, DiscardPlan::SetLen(offset)),
            later_offset,
            later_length,
        ) is Nothing,
{
}

/// Where the known size of a file is not below its length, it is not so after discarding a range,
/// either.
pub proof fn law_discard_keeps_within_size(
    contents: Seq<u8>,
    size: u64,
    offset: u64,
    length: u64,
    max_offset: i64,
)
    requires
        contents.len() <= size,
    ensures
        ({
            let plan = punching_plan(size, offset, length, max_offset);
            carried_out(contents, plan).len() <= size_after(size, plan) <= size
        }),
        ({
            let plan = zeroing_plan(size, offset, length);
            carried_out(contents, plan).len() <= size_after(size, plan) <= size
        }),
{
}

} // verus!
