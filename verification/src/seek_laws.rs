//! What requests come to on systems that transfer one buffer at a time.

use crate::error::StorageError;
use crate::seek::{SeekReadAction, SeekState, SeekWriteAction};
use vstd::prelude::*;

verus! {

/// A read request under way.
pub struct SeekReadProgress {
    /// Its state.
    pub state: SeekState,
    /// The data that has gone to the memory of the request so far, from its beginning on.
    pub delivered: Seq<u8>,
}

/// The request after `n` more bytes of the file have been read, or, at or beyond its known size,
/// after that many zeroes have been filled in.
pub open spec fn seek_read_step(
    p: SeekReadProgress,
    contents: Seq<u8>,
    size: u64,
    n: u64,
) -> SeekReadProgress {
    if !p.state.active() {
        p
    } else {
        SeekReadProgress {
            state: p.state.next(n, StorageError::ReadOffsetOverflow),
            delivered: p.delivered + if p.state.offset >= size {
                crate::contents::zeroes(n as nat)
            } else {
                crate::contents::read_back(contents, p.state.offset as int, n as nat)
            },
        }
    }
}

/// The request after these many bytes at a time.
pub open spec fn seek_read_run(
    start: SeekState,
    contents: Seq<u8>,
    size: u64,
    counts: Seq<u64>,
) -> SeekReadProgress
    decreases counts.len(),
{
    if counts.len() == 0 {
        SeekReadProgress { state: start, delivered: Seq::empty() }
    } else {
        seek_read_step(
            seek_read_run(start, contents, size, counts.drop_last()),
            contents,
            size,
            counts.last(),
        )
    }
}

/// `n` is how many bytes a file of these contents can give to a request in this state: none at or
/// beyond its end, and some before it.  At or beyond its known size, something is filled in.
pub open spec fn faithful_seek_read(s: SeekState, contents: Seq<u8>, size: u64, n: u64) -> bool {
    s.active() ==> {
        &&& n <= s.todo.len()
        &&& s.offset >= size ==> n > 0
        &&& s.offset < size ==> {
            &&& n == 0 <==> s.offset >= contents.len()
            &&& n > 0 ==> s.offset + n <= contents.len()
        }
    }
}

/// All of these are such.
pub open spec fn faithful_seek_reads(
    start: SeekState,
    contents: Seq<u8>,
    size: u64,
    counts: Seq<u64>,
) -> bool
    decreases counts.len(),
{
    counts.len() == 0 || {
        &&& faithful_seek_reads(start, contents, size, counts.drop_last())
        &&& faithful_seek_read(
            seek_read_run(start, contents, size, counts.drop_last()).state,
            contents,
            size,
            counts.last(),
        )
    }
}

/// A read comes to an end where the known size of the file is its length: each time, either there
/// is less left to be done, or the request has failed.  So does a write, as long as something is
/// written.
pub proof fn law_seek_requests_make_progress(
    read: SeekState,
    contents: Seq<u8>,
    size: u64,
    n: u64,
    write: SeekState,
    m: u64,
)
    requires
        contents.len() == size,
        faithful_seek_read(read, contents, size, n),
        0 < m <= write.todo.len(),
    ensures
        ({
            let next = read.next(n, StorageError::ReadOffsetOverflow);
            next.active() ==> next.todo.len() < read.todo.len()
        }),
        ({
            let next = write.next(m, StorageError::WriteOffsetOverflow);
            next.active() ==> next.todo.len() < write.todo.len()
        }),
{
}

/// What a request asks for, as long as there is something left: to read from its offset on, if that
/// is before the end of the file, and otherwise to fill in zeroes, or to write at its offset; and in
/// each case the memory is what is left of one buffer.
pub proof fn law_seek_asks_for_what_is_left(
    s: SeekState,
    size: u64,
    read: SeekReadAction,
    write: SeekWriteAction,
)
    ensures
        s.asks_read(size, read) <==> match read {
            SeekReadAction::Fail(e) => s.failed == Some(e),
            SeekReadAction::Done => s.failed is None && s.todo.len() == 0,
            SeekReadAction::FillWithZeroes { segment } => {
                &&& s.failed is None
                &&& s.todo.len() > 0
                &&& size <= s.offset
                &&& crate::io_vector::is_leading_segment(s.todo, segment)
            },
            SeekReadAction::Read { segment, offset } => {
                &&& s.failed is None
                &&& s.todo.len() > 0
                &&& offset == s.offset
                &&& offset < size
                &&& crate::io_vector::is_leading_segment(s.todo, segment)
            },
        },
        s.asks_write(write) <==> match write {
            SeekWriteAction::Fail(e) => s.failed == Some(e),
            SeekWriteAction::Done => s.failed is None && s.todo.len() == 0,
            SeekWriteAction::Write { segment, offset } => {
                &&& s.failed is None
                &&& s.todo.len() > 0
                &&& offset == s.offset
                &&& crate::io_vector::is_leading_segment(s.todo, segment)
            },
        },
        s.active() <==> s.failed is None && s.todo.len() > 0,
{
}

/// The memory that a request asks to transfer or to fill is the first of the pieces that are left.
///
/// No piece is empty, and they are in the order of their buffers.
pub proof fn law_seek_takes_first_segment(
    s: SeekState,
    segments: Seq<crate::io_vector::Segment>,
    size: u64,
    read: SeekReadAction,
    write: SeekWriteAction,
)
    requires
        s.todo == crate::io_vector::segment_bytes(segments),
        segments.len() > 0,
        forall|m: int| 0 <= m < segments.len() ==> (#[trigger] segments[m]).start < segments[m].end,
        forall|l: int, m: int|
            0 <= l < m < segments.len() ==> (#[trigger] segments[l]).buffer < (
            #[trigger] segments[m]).buffer,
    ensures
        s.asks_read(size, read) ==> match read {
            SeekReadAction::Read { segment, .. } => segment == segments[0],
            SeekReadAction::FillWithZeroes { segment } => segment == segments[0],
            SeekReadAction::Done => false,
            SeekReadAction::Fail(_) => true,
        },
        s.asks_write(write) ==> match write {
            SeekWriteAction::Write { segment, .. } => segment == segments[0],
            SeekWriteAction::Done => false,
            SeekWriteAction::Fail(_) => true,
        },
{
    assert(s.todo.len() > 0) by {
        assert(crate::io_vector::segment_bytes(segments).len() >= segments[0].bytes().len());
    }
    match read {
        SeekReadAction::Read { segment, .. } => {
            crate::io_vector::law_leading_segment_is_first(segments, segment);
        },
        SeekReadAction::FillWithZeroes { segment } => {
            crate::io_vector::law_leading_segment_is_first(segments, segment);
        },
        _ => {},
    }
    if let SeekWriteAction::Write { segment, .. } = write {
        crate::io_vector::law_leading_segment_is_first(segments, segment);
    }
}

/// What it does to a request that something has been transferred: that much is taken off the memory
/// that is left and added to the offset, up to which the file reaches then at least if it was a
/// write of something.  An offset that cannot be represented is the given error.  A request that
/// does not ask for anything is not changed.
pub proof fn law_seek_takes_counts(s: SeekState, size: u64, n: u64, overflow: StorageError)
    requires
        n <= s.todo.len(),
    ensures
        s.failed is None && s.todo.len() > 0 ==> {
            let next = s.next(n, overflow);
            let new_size = s.size_after(size, n);
            &&& s.offset + n <= u64::MAX ==> {
                &&& next.failed is None
                &&& next.todo == s.todo.skip(n as int)
                &&& next.offset == s.offset + n
                &&& n == 0 || s.offset + n <= size ==> new_size == size
                &&& n > 0 && s.offset + n > size ==> new_size == s.offset + n
            }
            &&& s.offset + n > u64::MAX ==> next.failed == Some(overflow) && new_size == size
        },
        !(s.failed is None && s.todo.len() > 0) ==> s.next(n, overflow) == s && s.size_after(size, n)
            == size,
{
}

/// To transfer something in two parts comes to the same as to transfer it at once.
pub proof fn law_seek_counts_add_up(s: SeekState, size: u64, a: u64, b: u64, overflow: StorageError)
    requires
        0 < b,
        a + b <= s.todo.len(),
        s.offset + a + b <= u64::MAX,
    ensures
        s.next(a, overflow).next(b, overflow) == s.next((a + b) as u64, overflow),
        s.next(a, overflow).size_after(s.size_after(size, a), b) == s.size_after(
            size,
            (a + b) as u64,
        ),
{
    assert(s.todo.skip(a as int).skip(b as int) =~= s.todo.skip(a + b));
}

/// A read goes on where it has left off: whenever the file is asked, then from the offset of the
/// request on that follows what has been delivered, which is before the end of the file, and the
/// data goes to the memory that follows, too.  Zeroes are filled in from the end of the file on.
pub proof fn law_seek_read_goes_on_where_it_left_off(
    start: SeekState,
    contents: Seq<u8>,
    size: u64,
    counts: Seq<u64>,
    action: SeekReadAction,
)
    requires
        start.failed is None,
        contents.len() <= size,
        faithful_seek_reads(start, contents, size, counts),
        seek_read_run(start, contents, size, counts).state.asks_read(size, action),
    ensures
        ({
            let done = seek_read_run(start, contents, size, counts).delivered.len() as int;
            match action {
                SeekReadAction::Read { segment, offset } => {
                    &&& offset == start.offset + done
                    &&& offset < size
                    &&& done + segment.bytes().len() <= start.todo.len()
                    &&& segment.bytes() == start.todo.subrange(done, done + segment.bytes().len())
                },
                SeekReadAction::FillWithZeroes { segment } => {
                    &&& start.offset + done >= size
                    &&& done + segment.bytes().len() <= start.todo.len()
                    &&& segment.bytes() == start.todo.subrange(done, done + segment.bytes().len())
                },
                SeekReadAction::Done => done == start.todo.len(),
                SeekReadAction::Fail(e) => e == StorageError::ReadOffsetOverflow,
            }
        }),
{
    let p = seek_read_run(start, contents, size, counts);
    let done = p.delivered.len() as int;
    lemma_seek_read_progress(start, contents, size, counts);
    match action {
        SeekReadAction::Read { segment, .. } => {
            assert(p.state.todo.take(segment.end - segment.start) =~= start.todo.subrange(
                done,
                done + segment.bytes().len(),
            ));
        },
        SeekReadAction::FillWithZeroes { segment } => {
            assert(p.state.todo.take(segment.end - segment.start) =~= start.todo.subrange(
                done,
                done + segment.bytes().len(),
            ));
        },
        _ => {},
    }
}

/// A read gives what the file holds, and zeroes beyond its end.
///
/// `size` is the known size of the file, which is not below its length.
pub proof fn law_seek_read_gives_contents(
    start: SeekState,
    contents: Seq<u8>,
    size: u64,
    counts: Seq<u64>,
)
    requires
        start.failed is None,
        contents.len() <= size,
        faithful_seek_reads(start, contents, size, counts),
    ensures
        ({
            let p = seek_read_run(start, contents, size, counts);
            let all = crate::contents::read_back(contents, start.offset as int, start.todo.len());
            p.state.failed is None ==> {
                &&& p.delivered.len() <= start.todo.len()
                &&& p.delivered == all.take(p.delivered.len() as int)
                &&& p.state.todo == start.todo.skip(p.delivered.len() as int)
                &&& p.state.todo.len() == 0 ==> p.delivered == all
            }
        }),
{
    let p = seek_read_run(start, contents, size, counts);
    let all = crate::contents::read_back(contents, start.offset as int, start.todo.len());
    lemma_seek_read_progress(start, contents, size, counts);
    if p.state.failed is None {
        assert(p.delivered =~= all.take(p.delivered.len() as int));
        if p.state.todo.len() == 0 {
            assert(p.delivered =~= all);
        }
    }
}

proof fn lemma_seek_read_progress(
    start: SeekState,
    contents: Seq<u8>,
    size: u64,
    counts: Seq<u64>,
)
    requires
        start.failed is None,
        contents.len() <= size,
        faithful_seek_reads(start, contents, size, counts),
    ensures
        ({
            let p = seek_read_run(start, contents, size, counts);
            let done = p.delivered.len();
            match p.state.failed {
                None => {
                    &&& done <= start.todo.len()
                    &&& p.delivered == crate::contents::read_back(
                        contents,
                        start.offset as int,
                        done,
                    )
                    &&& p.state.todo == start.todo.skip(done as int)
                    &&& p.state.offset == start.offset + done
                },
                Some(e) => {
                    &&& e == StorageError::ReadOffsetOverflow
                    &&& start.offset + start.todo.len() > u64::MAX
                },
            }
        }),
    decreases counts.len(),
{
    if counts.len() == 0 {
        assert(Seq::<u8>::empty() =~= crate::contents::read_back(
            contents,
            start.offset as int,
            0,
        ));
        assert(start.todo.skip(0) =~= start.todo);
    } else {
        let before = seek_read_run(start, contents, size, counts.drop_last());
        let done = before.delivered.len();
        let n = counts.last();
        lemma_seek_read_progress(start, contents, size, counts.drop_last());
        if before.state.active() {
            if before.state.offset >= size {
                assert(crate::contents::zeroes(n as nat) =~= crate::contents::read_back(
                    contents,
                    before.state.offset as int,
                    n as nat,
                ));
            }
            crate::contents::lemma_read_in_parts(contents, start.offset as int, done, n as nat);
            assert(start.todo.skip(done as int).skip(n as int) =~= start.todo.skip(done + n));
        }
    }
}

/// A read fails by itself only if the range to be read has an offset that cannot be represented.
pub proof fn law_seek_read_fails_for_a_reason(
    start: SeekState,
    contents: Seq<u8>,
    size: u64,
    counts: Seq<u64>,
)
    requires
        start.failed is None,
        contents.len() <= size,
        faithful_seek_reads(start, contents, size, counts),
    ensures
        seek_read_run(start, contents, size, counts).state.failed matches Some(e) ==> {
            &&& e == StorageError::ReadOffsetOverflow
            &&& start.offset + start.todo.len() > u64::MAX
        },
{
    lemma_seek_read_progress(start, contents, size, counts);
}

/// A write request under way.
pub struct SeekWriteProgress {
    /// Its state.
    pub state: SeekState,
    /// What the file holds.
    pub contents: Seq<u8>,
    /// The size of the file, as far as it is known.
    pub size: u64,
}

/// The request, whose memory holds `data`, after `n` more bytes have been written.
pub open spec fn seek_write_step(
    p: SeekWriteProgress,
    data: Seq<u8>,
    n: u64,
) -> SeekWriteProgress {
    if !p.state.active() {
        p
    } else {
        let done = data.len() - p.state.todo.len();
        SeekWriteProgress {
            state: p.state.next(n, StorageError::WriteOffsetOverflow),
            contents: crate::contents::written(
                p.contents,
                p.state.offset as int,
                data.subrange(done, done + n),
            ),
            size: p.state.size_after(p.size, n),
        }
    }
}

/// The request after these many bytes at a time.
pub open spec fn seek_write_run(
    start: SeekWriteProgress,
    data: Seq<u8>,
    counts: Seq<u64>,
) -> SeekWriteProgress
    decreases counts.len(),
{
    if counts.len() == 0 {
        start
    } else {
        seek_write_step(seek_write_run(start, data, counts.drop_last()), data, counts.last())
    }
}

/// At no time was more written than there was, or beyond an offset that exists.
pub open spec fn faithful_seek_writes(
    start: SeekWriteProgress,
    data: Seq<u8>,
    counts: Seq<u64>,
) -> bool
    decreases counts.len(),
{
    counts.len() == 0 || {
        let before = seek_write_run(start, data, counts.drop_last()).state;
        &&& faithful_seek_writes(start, data, counts.drop_last())
        &&& before.active() ==> {
            &&& counts.last() <= before.todo.len()
            &&& before.offset + counts.last() <= u64::MAX
        }
    }
}

/// A write makes the file hold what was to be written: all of it when it is done, and at each time
/// before, as much as the file has taken.  The known size of the file grows accordingly; if it is
/// not below the length of the file, or is the length, it remains so.
pub proof fn law_seek_write_changes_contents(
    start: SeekWriteProgress,
    data: Seq<u8>,
    counts: Seq<u64>,
)
    requires
        start.state.failed is None,
        start.state.todo.len() == data.len(),
        faithful_seek_writes(start, data, counts),
    ensures
        ({
            let p = seek_write_run(start, data, counts);
            let done = data.len() - p.state.todo.len();
            let offset = start.state.offset;
            &&& p.state.failed is None
            &&& 0 <= done <= data.len()
            &&& p.contents == crate::contents::written(
                start.contents,
                offset as int,
                data.take(done),
            )
            &&& start.size <= p.size
            &&& p.size == crate::transfer_laws::size_with(start.size, offset, done as nat)
            &&& start.contents.len() <= start.size ==> p.contents.len() <= p.size
            &&& start.contents.len() == start.size ==> p.contents.len() == p.size
            &&& p.state.todo.len() == 0 ==> {
                &&& p.contents == crate::contents::written(start.contents, offset as int, data)
                &&& p.size == crate::transfer_laws::size_with(start.size, offset, data.len())
            }
        }),
{
    lemma_seek_write_progress(start, data, counts);
    if seek_write_run(start, data, counts).state.todo.len() == 0 {
        assert(data.take(data.len() as int) =~= data);
    }
}

/// A write goes on where it has left off: whenever the file is asked, then to write at the offset of
/// the request that follows what has been written, and the data comes from the memory that follows,
/// too.
pub proof fn law_seek_write_goes_on_where_it_left_off(
    start: SeekWriteProgress,
    data: Seq<u8>,
    counts: Seq<u64>,
    action: SeekWriteAction,
)
    requires
        start.state.failed is None,
        start.state.todo.len() == data.len(),
        faithful_seek_writes(start, data, counts),
        seek_write_run(start, data, counts).state.asks_write(action),
    ensures
        ({
            let done = data.len() - seek_write_run(start, data, counts).state.todo.len();
            match action {
                SeekWriteAction::Write { segment, offset } => {
                    &&& offset == start.state.offset + done
                    &&& done + segment.bytes().len() <= data.len()
                    &&& segment.bytes() == start.state.todo.subrange(
                        done,
                        done + segment.bytes().len(),
                    )
                },
                SeekWriteAction::Done => done == data.len(),
                SeekWriteAction::Fail(_) => false,
            }
        }),
{
    let p = seek_write_run(start, data, counts);
    let done = data.len() - p.state.todo.len();
    lemma_seek_write_progress(start, data, counts);
    if let SeekWriteAction::Write { segment, .. } = action {
        assert(p.state.todo.take(segment.end - segment.start) =~= start.state.todo.subrange(
            done,
            done + segment.bytes().len(),
        ));
    }
}

proof fn lemma_seek_write_progress(start: SeekWriteProgress, data: Seq<u8>, counts: Seq<u64>)
    requires
        start.state.failed is None,
        start.state.todo.len() == data.len(),
        faithful_seek_writes(start, data, counts),
    ensures
        ({
            let p = seek_write_run(start, data, counts);
            let done = data.len() - p.state.todo.len();
            let offset = start.state.offset;
            &&& p.state.failed is None
            &&& 0 <= done <= data.len()
            &&& p.state.offset == offset + done
            &&& p.state.todo == start.state.todo.skip(done)
            &&& p.contents == crate::contents::written(
                start.contents,
                offset as int,
                data.take(done),
            )
            &&& p.size == crate::transfer_laws::size_with(start.size, offset, done as nat)
        }),
    decreases counts.len(),
{
    if counts.len() == 0 {
        assert(data.take(0).len() == 0);
        assert(start.state.todo.skip(0) =~= start.state.todo);
    } else {
        let before = seek_write_run(start, data, counts.drop_last());
        let done = data.len() - before.state.todo.len();
        let n = counts.last();
        lemma_seek_write_progress(start, data, counts.drop_last());
        if before.state.active() {
            crate::contents::lemma_written_in_parts(
                start.contents,
                start.state.offset as int,
                data.take(done),
                data.subrange(done, done + n),
            );
            assert(data.take(done) + data.subrange(done, done + n) =~= data.take(done + n));
            assert(start.state.todo.skip(done).skip(n as int) =~= start.state.todo.skip(done + n));
        }
    }
}

/// What has been written is read back: whatever calls it takes, a read of a range that a write has
/// been completed on before gives what was written.
pub proof fn law_seek_read_gives_what_was_written(
    write: SeekWriteProgress,
    data: Seq<u8>,
    write_counts: Seq<u64>,
    read: SeekState,
    read_counts: Seq<u64>,
)
    requires
        write.state.failed is None,
        write.state.todo.len() == data.len(),
        write.contents.len() <= write.size,
        faithful_seek_writes(write, data, write_counts),
        seek_write_run(write, data, write_counts).state.todo.len() == 0,
        read.failed is None,
        read.offset == write.state.offset,
        read.todo.len() == data.len(),
        ({
            let file = seek_write_run(write, data, write_counts);
            faithful_seek_reads(read, file.contents, file.size, read_counts)
        }),
    ensures
        ({
            let file = seek_write_run(write, data, write_counts);
            let p = seek_read_run(read, file.contents, file.size, read_counts);
            p.state.failed is None && p.state.todo.len() == 0 ==> p.delivered == data
        }),
{
    let file = seek_write_run(write, data, write_counts);
    law_seek_write_changes_contents(write, data, write_counts);
    law_seek_read_gives_contents(read, file.contents, file.size, read_counts);
    crate::contents::law_read_back_written(write.contents, write.state.offset as int, data);
}

/// A range that has been discarded by zeroing it, and every part of it, is read as zeroes, whatever
/// calls it takes, unless the plan was to leave the range as it is, or the range has an end that
/// zeroing cannot be told of.
///
/// `size` is the known size of the file, which is not below its length.
pub proof fn law_zeroed_range_is_seek_read_as_zeroes(
    contents: Seq<u8>,
    size: u64,
    offset: u64,
    length: u64,
    read: SeekState,
    counts: Seq<u64>,
)
    requires
        contents.len() <= size,
        read.failed is None,
        offset <= read.offset,
        read.offset + read.todo.len() <= offset + length,
        ({
            let plan = crate::discard::zeroing_plan(size, offset, length);
            &&& !(plan is Skip)
            &&& plan is ZeroRange ==> offset + length <= i64::MAX
            &&& faithful_seek_reads(
                read,
                crate::discard::carried_out(contents, plan),
                crate::discard::size_after(size, plan),
                counts,
            )
        }),
    ensures
        ({
            let plan = crate::discard::zeroing_plan(size, offset, length);
            let p = seek_read_run(
                read,
                crate::discard::carried_out(contents, plan),
                crate::discard::size_after(size, plan),
                counts,
            );
            p.state.failed is None && p.state.todo.len() == 0 ==> p.delivered
                == crate::contents::zeroes(read.todo.len())
        }),
{
    let plan = crate::discard::zeroing_plan(size, offset, length);
    let after = crate::discard::carried_out(contents, plan);
    crate::discard::law_discard_keeps_within_size(contents, size, offset, length, 0);
    law_seek_read_gives_contents(
        read,
        after,
        crate::discard::size_after(size, plan),
        counts,
    );
    assert(crate::contents::read_back(after, read.offset as int, read.todo.len())
        =~= crate::contents::zeroes(read.todo.len()));
}

} // verus!
