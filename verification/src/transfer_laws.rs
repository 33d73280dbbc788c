//! What requests come to: that a read gives what the file holds, and that a write makes the file
//! hold what was to be written, however many calls it takes.

use crate::error::{FailureKind, IoFailure, StorageError};
use crate::read::{ReadAction, ReadStage, ReadState};
use crate::write::{WriteAction, WriteState};
use vstd::prelude::*;

verus! {

/// A read request under way.
pub struct ReadProgress {
    /// Its state.
    pub state: ReadState,
    /// The data that has gone to the memory of the request so far, from its beginning on.
    pub delivered: Seq<u8>,
}

/// The request after the file, which has these contents, has answered once more.
pub open spec fn read_step(
    p: ReadProgress,
    contents: Seq<u8>,
    result: Result<u64, IoFailure>,
) -> ReadProgress {
    match p.state.action() {
        ReadAction::Read { offset } => ReadProgress {
            state: p.state.next(result),
            delivered: match result {
                Ok(n) => p.delivered + crate::contents::read_back(
                    contents,
                    offset as int,
                    n as nat,
                ),
                Err(_) => p.delivered,
            },
        },
        _ => p,
    }
}

/// The request after the file has given these answers.
pub open spec fn read_run(
    start: ReadState,
    contents: Seq<u8>,
    results: Seq<Result<u64, IoFailure>>,
) -> ReadProgress
    decreases results.len(),
{
    if results.len() == 0 {
        ReadProgress { state: start, delivered: Seq::empty() }
    } else {
        read_step(read_run(start, contents, results.drop_last()), contents, results.last())
    }
}

/// The answer is one that a file of these contents can give to a request in this state: it reads
/// nothing at or beyond its end, and something before it, or it fails.
pub open spec fn faithful_read(
    s: ReadState,
    contents: Seq<u8>,
    result: Result<u64, IoFailure>,
) -> bool {
    s.action() matches ReadAction::Read { offset } ==> match result {
        Ok(n) => {
            &&& n <= s.todo.len()
            &&& n == 0 <==> offset >= contents.len()
            &&& n > 0 ==> offset + n <= contents.len()
        },
        Err(_) => true,
    }
}

/// All of the answers are such.
pub open spec fn faithful_reads(
    start: ReadState,
    contents: Seq<u8>,
    results: Seq<Result<u64, IoFailure>>,
) -> bool
    decreases results.len(),
{
    results.len() == 0 || {
        &&& faithful_reads(start, contents, results.drop_last())
        &&& faithful_read(
            read_run(start, contents, results.drop_last()).state,
            contents,
            results.last(),
        )
    }
}

/// A failure that ends a request is among the answers.
pub open spec fn reports_failure(results: Seq<Result<u64, IoFailure>>, code: i32) -> bool {
    exists|i: int|
        0 <= i < results.len() && (#[trigger] results[i] matches Err(f) && !(f.kind is Interrupted)
            && f.code == code)
}

/// A read gives what the file holds, and zeroes beyond its end: that is what has gone to the
/// memory of the request when it is done, or has done so when what is left of that memory has been
/// filled with zeroes as asked.  At each time before, it is the beginning of that.
pub proof fn law_read_gives_contents(
    start: ReadState,
    contents: Seq<u8>,
    results: Seq<Result<u64, IoFailure>>,
)
    requires
        start.stage is Reading,
        contents.len() <= u64::MAX,
        faithful_reads(start, contents, results),
    ensures
        ({
            let p = read_run(start, contents, results);
            let all = crate::contents::read_back(contents, start.offset as int, start.todo.len());
            &&& p.delivered.len() <= start.todo.len()
            &&& p.delivered == all.take(p.delivered.len() as int)
            &&& p.state.todo == start.todo.skip(p.delivered.len() as int)
            &&& p.state.action() is Done ==> p.delivered == all
            &&& p.state.action() is FillWithZeroes ==> p.delivered + crate::contents::zeroes(
                p.state.todo.len(),
            ) == all
        }),
{
    let p = read_run(start, contents, results);
    let all = crate::contents::read_back(contents, start.offset as int, start.todo.len());
    lemma_read_progress(start, contents, results);
    assert(p.delivered =~= all.take(p.delivered.len() as int));
    if p.state.action() is Done {
        assert(p.delivered =~= all);
    }
    if p.state.action() is FillWithZeroes {
        assert(p.delivered + crate::contents::zeroes(p.state.todo.len()) =~= all);
    }
}

/// A read goes on where it has left off: whenever the file is asked, then from the offset of the
/// request on that follows what has been delivered, and there is memory left for it.
pub proof fn law_read_goes_on_where_it_left_off(
    start: ReadState,
    contents: Seq<u8>,
    results: Seq<Result<u64, IoFailure>>,
)
    requires
        start.stage is Reading,
        contents.len() <= u64::MAX,
        faithful_reads(start, contents, results),
    ensures
        ({
            let p = read_run(start, contents, results);
            p.state.action() matches ReadAction::Read { offset } ==> {
                &&& offset == start.offset + p.delivered.len()
                &&& p.delivered.len() < start.todo.len()
                &&& offset <= start.max_offset
            }
        }),
{
    lemma_read_progress(start, contents, results);
}

/// What a read request asks for: as long as it has not come to an end, to read from its offset on if
/// there is memory left and the system can be asked for that offset.
pub proof fn law_read_asks_for_what_is_left(s: ReadState, at: u64, e: StorageError)
    ensures
        s.action() == (ReadAction::Read { offset: at }) <==> s.stage is Reading && s.todo.len() > 0
            && at == s.offset && at <= s.max_offset,
        s.action() is Read ==> s.action() == (ReadAction::Read { offset: s.offset }),
        s.action() is Done <==> s.stage is Reading && s.todo.len() == 0,
        s.action() is FillWithZeroes <==> s.stage is AtEnd,
        s.action() == ReadAction::Fail(e) <==> s.stage == ReadStage::Failed(e) || (s.stage is Reading
            && s.todo.len() > 0 && s.offset > s.max_offset && e
            == StorageError::ReadOffsetOverflow),
{
}

/// What an answer does to a read request: what was read is taken off the memory that is left and
/// added to the offset, and nothing read means the end of the file.  A failure that is no
/// interruption is reported as it is.  A request that does not ask the file is not changed.
pub proof fn law_read_takes_answers(s: ReadState, n: u64, f: IoFailure)
    requires
        n <= s.todo.len(),
    ensures
        s.stage is Reading && s.todo.len() > 0 && s.offset <= s.max_offset ==> {
            let read = s.next(Ok(n));
            let failed = s.next(Err(f));
            &&& read.max_offset == s.max_offset && failed.max_offset == s.max_offset
            &&& n == 0 ==> read.stage is AtEnd && read.todo == s.todo && read.offset == s.offset
            &&& n > 0 ==> read.todo == s.todo.skip(n as int)
            &&& n > 0 && s.offset + n <= u64::MAX ==> read.stage is Reading && read.offset
                == s.offset + n
            &&& n > 0 && s.offset + n > u64::MAX ==> read.stage == ReadStage::Failed(
                StorageError::ReadOffsetOverflow,
            )
            &&& f.kind is Interrupted ==> failed == s
            &&& !(f.kind is Interrupted) ==> {
                &&& failed.stage == ReadStage::Failed(StorageError::Os(f.code))
                &&& failed.todo == s.todo
                &&& failed.offset == s.offset
            }
        },
        !(s.stage is Reading && s.todo.len() > 0 && s.offset <= s.max_offset) ==> s.next(Ok(n)) == s
            && s.next(Err(f)) == s,
{
}

/// Two answers that deliver something come to the same as one that delivers as much at once.
pub proof fn law_answers_add_up(read: ReadState, write: WriteState, size: u64, a: u64, b: u64)
    requires
        0 < a,
        0 < b,
        a + b <= read.todo.len(),
        a + b <= write.todo.len(),
        read.offset + a + b <= u64::MAX,
        read.offset + a <= read.max_offset,
        write.offset + a + b <= u64::MAX,
        write.offset + a <= write.max_offset,
    ensures
        read.next(Ok(a)).next(Ok(b)) == read.next(Ok((a + b) as u64)),
        write.next(Ok(a)).next(Ok(b)) == write.next(Ok((a + b) as u64)),
        write.next(Ok(a)).size_after(write.size_after(size, Ok(a)), Ok(b)) == write.size_after(
            size,
            Ok((a + b) as u64),
        ),
{
    assert(read.todo.skip(a as int).skip(b as int) =~= read.todo.skip(a + b));
    assert(write.todo.skip(a as int).skip(b as int) =~= write.todo.skip(a + b));
}

/// A failure that the answers but the last one report is reported by all of them.
proof fn lemma_failure_stays_reported(results: Seq<Result<u64, IoFailure>>)
    requires
        results.len() > 0,
    ensures
        forall|code: i32| #[trigger]
            reports_failure(results.drop_last(), code) ==> reports_failure(results, code),
{
    let before = results.drop_last();
    assert forall|code: i32| #[trigger] reports_failure(before, code) implies reports_failure(
        results,
        code,
    ) by {
        let i = choose|i: int|
            0 <= i < before.len() && (#[trigger] before[i] matches Err(f) && !(
            f.kind is Interrupted) && f.code == code);
        assert(results[i] == before[i]);
    }
}

/// A read fails only for a reason: an answer was a failure other than an interruption, which is
/// then what the request reports, or the range to be read has an offset that the system cannot be
/// asked for.
pub proof fn law_read_fails_for_a_reason(
    start: ReadState,
    contents: Seq<u8>,
    results: Seq<Result<u64, IoFailure>>,
)
    requires
        start.stage is Reading,
        contents.len() <= u64::MAX,
        faithful_reads(start, contents, results),
    ensures
        match read_run(start, contents, results).state.action() {
            ReadAction::Fail(StorageError::Os(code)) => reports_failure(results, code),
            ReadAction::Fail(e) => {
                &&& e == StorageError::ReadOffsetOverflow
                &&& start.offset + start.todo.len() > start.max_offset + 1
            },
            _ => true,
        },
    decreases results.len(),
{
    lemma_read_progress(start, contents, results);
    if results.len() > 0 {
        let before = results.drop_last();
        law_read_fails_for_a_reason(start, contents, before);
        lemma_failure_stays_reported(results);
        assert(results[results.len() - 1] == results.last());
    }
}

proof fn lemma_read_progress(
    start: ReadState,
    contents: Seq<u8>,
    results: Seq<Result<u64, IoFailure>>,
)
    requires
        start.stage is Reading,
        contents.len() <= u64::MAX,
        faithful_reads(start, contents, results),
    ensures
        ({
            let p = read_run(start, contents, results);
            let done = p.delivered.len();
            &&& done <= start.todo.len()
            &&& p.delivered == crate::contents::read_back(contents, start.offset as int, done)
            &&& p.state.todo == start.todo.skip(done as int)
            &&& p.state.offset == start.offset + done
            &&& p.state.max_offset == start.max_offset
            &&& p.state.stage is AtEnd ==> p.state.offset >= contents.len()
            &&& p.state.stage matches ReadStage::Failed(e) ==> e is Os
        }),
    decreases results.len(),
{
    if results.len() == 0 {
        let p = read_run(start, contents, results);
        assert(p.delivered =~= crate::contents::read_back(contents, start.offset as int, 0));
        assert(start.todo.skip(0) =~= start.todo);
    } else {
        let before = read_run(start, contents, results.drop_last());
        let done = before.delivered.len();
        lemma_read_progress(start, contents, results.drop_last());
        if before.state.action() is Read {
            if let Ok(n) = results.last() {
                crate::contents::lemma_read_in_parts(
                    contents,
                    start.offset as int,
                    done,
                    n as nat,
                );
                assert(start.todo.skip(done as int).skip(n as int) =~= start.todo.skip(done + n));
            }
        }
    }
}

/// A write request under way.
pub struct WriteProgress {
    /// Its state.
    pub state: WriteState,
    /// What the file holds.
    pub contents: Seq<u8>,
    /// The size of the file, as far as it is known.
    pub size: u64,
}

/// The request, whose memory holds `data`, after the file has answered once more.
pub open spec fn write_step(
    p: WriteProgress,
    data: Seq<u8>,
    result: Result<u64, IoFailure>,
) -> WriteProgress {
    match p.state.action() {
        WriteAction::Write { offset } => {
            let done = data.len() - p.state.todo.len();
            WriteProgress {
                state: p.state.next(result),
                contents: match result {
                    Ok(n) => crate::contents::written(
                        p.contents,
                        offset as int,
                        data.subrange(done, done + n),
                    ),
                    Err(_) => p.contents,
                },
                size: p.state.size_after(p.size, result),
            }
        },
        _ => p,
    }
}

/// The request after the file has given these answers.
pub open spec fn write_run(
    start: WriteProgress,
    data: Seq<u8>,
    results: Seq<Result<u64, IoFailure>>,
) -> WriteProgress
    decreases results.len(),
{
    if results.len() == 0 {
        start
    } else {
        write_step(write_run(start, data, results.drop_last()), data, results.last())
    }
}

/// The answer is one that a file can give to a request in this state: it takes no more than there
/// is, up to an offset that exists, or it fails.
pub open spec fn faithful_write(s: WriteState, result: Result<u64, IoFailure>) -> bool {
    s.action() matches WriteAction::Write { offset } ==> match result {
        Ok(n) => n <= s.todo.len() && offset + n <= u64::MAX,
        Err(_) => true,
    }
}

/// All of the answers are such.
pub open spec fn faithful_writes(
    start: WriteProgress,
    data: Seq<u8>,
    results: Seq<Result<u64, IoFailure>>,
) -> bool
    decreases results.len(),
{
    results.len() == 0 || {
        &&& faithful_writes(start, data, results.drop_last())
        &&& faithful_write(write_run(start, data, results.drop_last()).state, results.last())
    }
}

/// The size of a file of which a part from `offset` on has been written, as far as it is known.
pub open spec fn size_with(size: u64, offset: u64, len: nat) -> int {
    if len == 0 {
        size as int
    } else {
        crate::align::max_int(size as int, offset + len)
    }
}

/// A write makes the file hold what was to be written: all of it when it is done, and at each time
/// before, as much as the file has taken.  The known size of the file grows accordingly.
pub proof fn law_write_changes_contents(
    start: WriteProgress,
    data: Seq<u8>,
    results: Seq<Result<u64, IoFailure>>,
)
    requires
        start.state.failed is None,
        start.state.todo.len() == data.len(),
        faithful_writes(start, data, results),
    ensures
        ({
            let p = write_run(start, data, results);
            let done = data.len() - p.state.todo.len();
            let offset = start.state.offset;
            &&& 0 <= done <= data.len()
            &&& p.contents == crate::contents::written(
                start.contents,
                offset as int,
                data.take(done),
            )
            &&& p.size == size_with(start.size, offset, done as nat)
            &&& p.state.action() is Done ==> {
                &&& p.contents == crate::contents::written(start.contents, offset as int, data)
                &&& p.size == size_with(start.size, offset, data.len())
            }
        }),
{
    lemma_write_progress(start, data, results);
    if write_run(start, data, results).state.action() is Done {
        assert(data.take(data.len() as int) =~= data);
    }
}

/// A write goes on where it has left off: whenever the file is asked, then to write at the offset of
/// the request that follows what has been written, and there is something left to be written.
pub proof fn law_write_goes_on_where_it_left_off(
    start: WriteProgress,
    data: Seq<u8>,
    results: Seq<Result<u64, IoFailure>>,
)
    requires
        start.state.failed is None,
        start.state.todo.len() == data.len(),
        faithful_writes(start, data, results),
    ensures
        ({
            let p = write_run(start, data, results);
            let done = data.len() - p.state.todo.len();
            &&& p.state.todo == start.state.todo.skip(done)
            &&& p.state.action() matches WriteAction::Write { offset } ==> {
                &&& offset == start.state.offset + done
                &&& 0 <= done < data.len()
                &&& offset <= start.state.max_offset
            }
        }),
{
    lemma_write_progress(start, data, results);
}

/// What a write request asks for: as long as it has not failed, to write at its offset if there is
/// something left and the system can be asked for that offset.
pub proof fn law_write_asks_for_what_is_left(s: WriteState, at: u64, e: StorageError)
    ensures
        s.action() == (WriteAction::Write { offset: at }) <==> s.failed is None && s.todo.len() > 0
            && at == s.offset && at <= s.max_offset,
        s.action() is Write ==> s.action() == (WriteAction::Write { offset: s.offset }),
        s.action() is Done <==> s.failed is None && s.todo.len() == 0,
        s.action() == WriteAction::Fail(e) <==> s.failed == Some(e) || (s.failed is None
            && s.todo.len() > 0 && s.offset > s.max_offset && e
            == StorageError::WriteOffsetOverflow),
{
}

/// What an answer does to a write request: what was written is taken off the memory that is left and
/// added to the offset, up to which the file reaches then at least; to write nothing is an error.  A
/// failure that is no interruption is reported as it is, and does not change the known size of the
/// file.  A request that does not ask the file is not changed.
pub proof fn law_write_takes_answers(s: WriteState, size: u64, n: u64, f: IoFailure)
    requires
        n <= s.todo.len(),
    ensures
        s.failed is None && s.todo.len() > 0 && s.offset <= s.max_offset ==> {
            let written = s.next(Ok(n));
            let failed = s.next(Err(f));
            let new_size = s.size_after(size, Ok(n));
            &&& written.max_offset == s.max_offset && failed.max_offset == s.max_offset
            &&& n == 0 ==> {
                &&& written.failed == Some(StorageError::WriteZero)
                &&& written.todo == s.todo
                &&& written.offset == s.offset
                &&& new_size == size
            }
            &&& n > 0 ==> written.todo == s.todo.skip(n as int)
            &&& n > 0 && s.offset + n <= u64::MAX ==> {
                &&& written.failed is None
                &&& written.offset == s.offset + n
                &&& s.offset + n <= size ==> new_size == size
                &&& s.offset + n > size ==> new_size == s.offset + n
            }
            &&& n > 0 && s.offset + n > u64::MAX ==> {
                &&& written.failed == Some(StorageError::WriteOffsetOverflow)
                &&& new_size == size
            }
            &&& f.kind is Interrupted ==> failed == s
            &&& !(f.kind is Interrupted) ==> {
                &&& failed.failed == Some(StorageError::Os(f.code))
                &&& failed.todo == s.todo
                &&& failed.offset == s.offset
            }
            &&& s.size_after(size, Err(f)) == size
        },
        !(s.failed is None && s.todo.len() > 0 && s.offset <= s.max_offset) ==> {
            &&& s.next(Ok(n)) == s
            &&& s.next(Err(f)) == s
            &&& s.size_after(size, Ok(n)) == size
            &&& s.size_after(size, Err(f)) == size
        },
{
}

/// The known size of a file is not below its length, and does not shrink by writing; if it is the
/// length, it remains so.
pub proof fn law_write_keeps_size_right(
    start: WriteProgress,
    data: Seq<u8>,
    results: Seq<Result<u64, IoFailure>>,
)
    requires
        start.state.failed is None,
        start.state.todo.len() == data.len(),
        faithful_writes(start, data, results),
        start.contents.len() <= start.size,
    ensures
        ({
            let p = write_run(start, data, results);
            &&& p.contents.len() <= p.size
            &&& start.size <= p.size
            &&& start.contents.len() == start.size ==> p.contents.len() == p.size
        }),
{
    lemma_write_progress(start, data, results);
}

/// A write fails only for a reason: an answer was a failure other than an interruption, which is
/// then what the request reports, or one was that nothing was written, or the range to be written
/// has an offset that the system cannot be asked for.
pub proof fn law_write_fails_for_a_reason(
    start: WriteProgress,
    data: Seq<u8>,
    results: Seq<Result<u64, IoFailure>>,
)
    requires
        start.state.failed is None,
        start.state.todo.len() == data.len(),
        faithful_writes(start, data, results),
    ensures
        match write_run(start, data, results).state.action() {
            WriteAction::Fail(StorageError::Os(code)) => reports_failure(results, code),
            WriteAction::Fail(StorageError::WriteZero) => results.contains(Ok(0)),
            WriteAction::Fail(e) => {
                &&& e == StorageError::WriteOffsetOverflow
                &&& start.state.offset + data.len() > start.state.max_offset + 1
            },
            _ => true,
        },
    decreases results.len(),
{
    lemma_write_progress(start, data, results);
    if results.len() > 0 {
        let before = results.drop_last();
        law_write_fails_for_a_reason(start, data, before);
        lemma_failure_stays_reported(results);
        if before.contains(Ok(0)) {
            let i = choose|i: int| 0 <= i < before.len() && before[i] == Ok::<u64, IoFailure>(0);
            assert(results[i] == before[i]);
        }
        assert(results[results.len() - 1] == results.last());
    }
}

proof fn lemma_write_progress(
    start: WriteProgress,
    data: Seq<u8>,
    results: Seq<Result<u64, IoFailure>>,
)
    requires
        start.state.failed is None,
        start.state.todo.len() == data.len(),
        faithful_writes(start, data, results),
    ensures
        ({
            let p = write_run(start, data, results);
            let done = data.len() - p.state.todo.len();
            &&& 0 <= done <= data.len()
            &&& p.contents == crate::contents::written(
                start.contents,
                start.state.offset as int,
                data.take(done),
            )
            &&& p.size == size_with(start.size, start.state.offset, done as nat)
            &&& p.state.offset == start.state.offset + done
            &&& p.state.todo == start.state.todo.skip(done)
            &&& p.state.max_offset == start.state.max_offset
            &&& p.state.failed matches Some(e) ==> e is Os || e is WriteZero
        }),
    decreases results.len(),
{
    if results.len() == 0 {
        assert(data.take(0).len() == 0);
        assert(start.state.todo.skip(0) =~= start.state.todo);
    } else {
        let before = write_run(start, data, results.drop_last());
        let done = data.len() - before.state.todo.len();
        lemma_write_progress(start, data, results.drop_last());
        if before.state.action() is Write {
            if let Ok(n) = results.last() {
                crate::contents::lemma_written_in_parts(
                    start.contents,
                    start.state.offset as int,
                    data.take(done),
                    data.subrange(done, done + n),
                );
                assert(data.take(done) + data.subrange(done, done + n) =~= data.take(done + n));
                assert(start.state.todo.skip(done).skip(n as int) =~= start.state.todo.skip(
                    done + n,
                ));
            }
        }
    }
}

/// What has been written is read back: whatever calls it takes, a read of a range that a write has
/// been completed on before gives what was written.
pub proof fn law_read_gives_what_was_written(
    write: WriteProgress,
    data: Seq<u8>,
    write_results: Seq<Result<u64, IoFailure>>,
    read: ReadState,
    read_results: Seq<Result<u64, IoFailure>>,
)
    requires
        write.state.failed is None,
        write.state.todo.len() == data.len(),
        faithful_writes(write, data, write_results),
        write_run(write, data, write_results).state.action() is Done,
        read.stage is Reading,
        read.offset == write.state.offset,
        read.todo.len() == data.len(),
        write_run(write, data, write_results).contents.len() <= u64::MAX,
        faithful_reads(read, write_run(write, data, write_results).contents, read_results),
    ensures
        ({
            let p = read_run(
                read,
                write_run(write, data, write_results).contents,
                read_results,
            );
            &&& p.state.action() is Done ==> p.delivered == data
            &&& p.state.action() is FillWithZeroes ==> p.delivered + crate::contents::zeroes(
                p.state.todo.len(),
            ) == data
        }),
{
    let contents = write_run(write, data, write_results).contents;
    law_write_changes_contents(write, data, write_results);
    law_read_gives_contents(read, contents, read_results);
    crate::contents::law_read_back_written(write.contents, write.state.offset as int, data);
}

/// A range that has been discarded, and every part of it, is read as zeroes, whatever calls it
/// takes, unless the plan was to leave the range as it is.
///
/// `size` is the known size of the file, which is not below its length.
pub proof fn law_discarded_range_is_read_as_zeroes(
    contents: Seq<u8>,
    size: u64,
    offset: u64,
    length: u64,
    max_offset: i64,
    read: ReadState,
    results: Seq<Result<u64, IoFailure>>,
)
    requires
        contents.len() <= size,
        max_offset >= 0,
        read.stage is Reading,
        offset <= read.offset,
        read.offset + read.todo.len() <= offset + length,
        ({
            let plan = crate::discard::punching_plan(size, offset, length, max_offset);
            &&& !(plan is Skip)
            &&& faithful_reads(read, crate::discard::carried_out(contents, plan), results)
        }),
    ensures
        ({
            let plan = crate::discard::punching_plan(size, offset, length, max_offset);
            let p = read_run(read, crate::discard::carried_out(contents, plan), results);
            &&& p.state.action() is Done ==> p.delivered == crate::contents::zeroes(read.todo.len())
            &&& p.state.action() is FillWithZeroes ==> p.delivered + crate::contents::zeroes(
                p.state.todo.len(),
            ) == crate::contents::zeroes(read.todo.len())
        }),
{
    let plan = crate::discard::punching_plan(size, offset, length, max_offset);
    let after = crate::discard::carried_out(contents, plan);
    crate::discard::law_discard_keeps_within_size(contents, size, offset, length, max_offset);
    law_read_gives_contents(read, after, results);
    let all = crate::contents::read_back(after, read.offset as int, read.todo.len());
    assert(all =~= crate::contents::zeroes(read.todo.len()));
}

/// What was interrupted is repeated as if it had not been tried.
pub proof fn law_interruption_changes_nothing(read: ReadState, write: WriteState, size: u64, code: i32)
    ensures
        ({
            let interrupted = Err::<u64, IoFailure>(
                IoFailure { kind: FailureKind::Interrupted, code },
            );
            &&& read.next(interrupted) == read
            &&& write.next(interrupted) == write
            &&& write.size_after(size, interrupted) == size
        }),
{
}

/// A request comes to an end: with each answer that is no interruption, either there is less left
/// to be done, or nothing more is asked of the file.
pub proof fn law_requests_make_progress(
    read: ReadState,
    write: WriteState,
    result: Result<u64, IoFailure>,
)
    requires
        result matches Ok(n) ==> n <= read.todo.len() && n <= write.todo.len(),
        result matches Err(f) ==> !(f.kind is Interrupted),
    ensures
        read.next(result).action() is Read ==> read.next(result).todo.len() < read.todo.len(),
        write.next(result).action() is Write ==> write.next(result).todo.len() < write.todo.len(),
{
}

} // verus!
