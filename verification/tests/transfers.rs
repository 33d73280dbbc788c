use imago_file::align::Alignments;
use imago_file::error::{ErrorCodes, FailureKind, IoFailure, StorageError};
use imago_file::file::File;
use imago_file::io_vector::{IoVector, Segment};
use imago_file::offset::max_file_offset;
use imago_file::read::{ReadAction, ReadRequest};
use imago_file::seek::{SeekReadAction, SeekReadRequest, SeekWriteAction, SeekWriteRequest};
use imago_file::write::{WriteAction, WriteRequest};

const INTERRUPTED: IoFailure = IoFailure { kind: FailureKind::Interrupted, code: 4 };
const EIO: IoFailure = IoFailure { kind: FailureKind::Other, code: 5 };
const MAX: u64 = i64::MAX as u64;

fn file(size: u64) -> File {
    File::new(None, size, Alignments { req_align: 1, mem_align: 1 })
}

fn vector(lengths: &[usize]) -> IoVector {
    IoVector::from_lengths(&lengths.to_vec())
}

fn segment(buffer: usize, start: usize, end: usize) -> Segment {
    Segment { buffer, start, end }
}

/// Read from `contents` in calls that give `step` bytes at most; every second call is interrupted.
fn read(contents: &[u8], lengths: &[usize], offset: u64, step: usize) -> Vec<Vec<u8>> {
    let mut bufs: Vec<Vec<u8>> = lengths.iter().map(|&l| vec![0xaa; l]).collect();
    let mut request = ReadRequest::new(vector(lengths), offset);
    let mut interrupt = true;
    loop {
        match request.action() {
            ReadAction::Read { offset } => {
                interrupt = !interrupt;
                if interrupt {
                    request.advance(Err(INTERRUPTED));
                    continue;
                }
                let mut done = 0;
                for s in request.bufv().segments() {
                    for i in s.start..s.end {
                        let at = offset as usize + done;
                        if done < step && at < contents.len() {
                            bufs[s.buffer][i] = contents[at];
                            done += 1;
                        }
                    }
                }
                request.advance(Ok(done as u64));
            }
            ReadAction::FillWithZeroes => {
                for s in request.bufv().segments() {
                    bufs[s.buffer][s.start..s.end].fill(0);
                }
                return bufs;
            }
            ReadAction::Done => return bufs,
            ReadAction::Fail(err) => panic!("{err:?}"),
        }
    }
}

/// Write to `contents` in calls that take `step` bytes at most; every second call is interrupted.
fn write(contents: &mut Vec<u8>, file: &mut File, bufs: &[Vec<u8>], offset: u64, step: usize) {
    let lengths: Vec<usize> = bufs.iter().map(|b| b.len()).collect();
    let mut request = file.pure_writev(IoVector::from_lengths(&lengths), offset);
    let mut interrupt = true;
    loop {
        match request.action() {
            WriteAction::Write { offset } => {
                interrupt = !interrupt;
                if interrupt {
                    request.advance(file, Err(INTERRUPTED));
                    continue;
                }
                let mut done = 0;
                for s in request.bufv().segments() {
                    for i in s.start..s.end {
                        if done < step {
                            let at = offset as usize + done;
                            if contents.len() <= at {
                                contents.resize(at + 1, 0);
                            }
                            contents[at] = bufs[s.buffer][i];
                            done += 1;
                        }
                    }
                }
                request.advance(file, Ok(done as u64));
            }
            WriteAction::Done => return,
            WriteAction::Fail(err) => panic!("{err:?}"),
        }
    }
}

#[test]
fn vector_covers_buffers() {
    let v = vector(&[3, 0, 2]);
    assert_eq!(v.segments(), &vec![segment(0, 0, 3), segment(2, 0, 2)]);
    assert!(!v.is_empty());
    assert!(v.has_at_least(0));
    assert!(v.has_at_least(5));
    assert!(!v.has_at_least(6));
    assert!(!v.has_at_least(u64::MAX));
    assert_eq!(v.first_segment(), Some(segment(0, 0, 3)));
    assert!(vector(&[]).is_empty());
    assert!(vector(&[0, 0]).is_empty());
    assert_eq!(vector(&[0, 0]).first_segment(), None);
}

#[test]
fn vector_is_split() {
    let v = vector(&[3, 0, 2]);
    assert_eq!(v.split_tail_at(0).segments(), v.segments());
    assert_eq!(v.split_tail_at(1).segments(), &vec![segment(0, 1, 3), segment(2, 0, 2)]);
    assert_eq!(v.split_tail_at(3).segments(), &vec![segment(2, 0, 2)]);
    assert_eq!(v.split_tail_at(4).segments(), &vec![segment(2, 1, 2)]);
    assert_eq!(v.split_tail_at(4).first_segment(), Some(segment(2, 1, 2)));
    assert!(v.split_tail_at(5).is_empty());
    assert_eq!(v.split_tail_at(1).split_tail_at(3).segments(), &vec![segment(2, 1, 2)]);
}

#[test]
fn read_gives_contents_and_zeroes() {
    let contents: Vec<u8> = (1..=20).collect();
    for step in 1..8 {
        assert_eq!(
            read(&contents, &[3, 0, 4], 2, step),
            vec![vec![3, 4, 5], vec![], vec![6, 7, 8, 9]]
        );
        assert_eq!(
            read(&contents, &[3, 4], 18, step),
            vec![vec![19, 20, 0], vec![0, 0, 0, 0]]
        );
        assert_eq!(read(&contents, &[2, 1], 20, step), vec![vec![0, 0], vec![0]]);
        assert_eq!(read(&contents, &[2], 1000, step), vec![vec![0, 0]]);
    }
    assert_eq!(read(&contents, &[], 1000, 1), Vec::<Vec<u8>>::new());
}

#[test]
fn written_data_is_read_back() {
    let data = vec![vec![1, 2, 3], vec![], vec![4, 5]];
    for step in 1..7 {
        let mut contents = vec![9; 4];
        let mut f = file(4);
        write(&mut contents, &mut f, &data, 3, step);
        assert_eq!(contents, vec![9, 9, 9, 1, 2, 3, 4, 5]);
        assert_eq!(f.size(), Ok(8));
        assert_eq!(read(&contents, &[5], 3, step), vec![vec![1, 2, 3, 4, 5]]);

        // Within the file, and with a hole before the data
        write(&mut contents, &mut f, &[vec![7]], 0, step);
        assert_eq!(f.size(), Ok(8));
        write(&mut contents, &mut f, &[vec![8]], 10, step);
        assert_eq!(f.size(), Ok(11));
        assert_eq!(contents, vec![7, 9, 9, 1, 2, 3, 4, 5, 0, 0, 8]);

        write(&mut contents, &mut f, &[], 100, step);
        assert_eq!(f.size(), Ok(11));
    }
}

#[test]
fn read_errors() {
    let mut r = ReadRequest::with_max_offset(vector(&[4]), 10, MAX);
    assert_eq!(r.action(), ReadAction::Read { offset: 10 });
    r.advance(Ok(1));
    assert_eq!(r.action(), ReadAction::Read { offset: 11 });
    r.advance(Err(EIO));
    assert_eq!(r.action(), ReadAction::Fail(StorageError::Os(5)));
    r.advance(Ok(1));
    assert_eq!(r.action(), ReadAction::Fail(StorageError::Os(5)));

    let overflow = ReadAction::Fail(StorageError::ReadOffsetOverflow);
    assert_eq!(ReadRequest::with_max_offset(vector(&[4]), MAX + 1, MAX).action(), overflow);
    assert_eq!(ReadRequest::new(vector(&[4]), u64::MAX).action(), overflow);
    assert_eq!(ReadRequest::new(vector(&[]), u64::MAX).action(), ReadAction::Done);

    let mut r = ReadRequest::with_max_offset(vector(&[4]), MAX, MAX);
    assert_eq!(r.action(), ReadAction::Read { offset: MAX });
    r.advance(Ok(1));
    assert_eq!(r.action(), overflow);

    let mut r = ReadRequest::with_max_offset(vector(&[4]), u64::MAX, u64::MAX);
    r.advance(Ok(1));
    assert_eq!(r.action(), overflow);
}

#[test]
fn write_errors() {
    let mut f = file(12);
    let mut w = WriteRequest::with_max_offset(vector(&[4]), 10, MAX);
    assert_eq!(w.action(), WriteAction::Write { offset: 10 });
    w.advance(&mut f, Ok(3));
    assert_eq!(f.size(), Ok(13));
    w.advance(&mut f, Ok(0));
    assert_eq!(w.action(), WriteAction::Fail(StorageError::WriteZero));
    w.advance(&mut f, Ok(1));
    assert_eq!(f.size(), Ok(13));

    let mut w = f.pure_writev(vector(&[4]), 10);
    w.advance(&mut f, Err(EIO));
    assert_eq!(w.action(), WriteAction::Fail(StorageError::Os(5)));
    assert_eq!(f.size(), Ok(13));

    let overflow = WriteAction::Fail(StorageError::WriteOffsetOverflow);
    assert_eq!(WriteRequest::with_max_offset(vector(&[4]), MAX + 1, MAX).action(), overflow);
    assert_eq!(WriteRequest::new(vector(&[4]), u64::MAX).action(), overflow);
    let mut w = WriteRequest::with_max_offset(vector(&[4]), u64::MAX - 1, u64::MAX);
    w.advance(&mut f, Ok(2));
    assert_eq!(w.action(), overflow);
    assert_eq!(f.size(), Ok(13));
}

#[test]
fn offsets_are_limited_by_the_system() {
    assert_eq!(max_file_offset(), i64::from(libc::off_t::MAX));
    let max = max_file_offset() as u64;
    let r = file(0).pure_readv(vector(&[1]), max);
    assert_eq!(r.action(), ReadAction::Read { offset: max });
    let r = file(0).pure_readv(vector(&[1]), max + 1);
    assert_eq!(r.action(), ReadAction::Fail(StorageError::ReadOffsetOverflow));
    let w = file(0).pure_writev(vector(&[1]), max + 1);
    assert_eq!(w.action(), WriteAction::Fail(StorageError::WriteOffsetOverflow));
}

#[test]
fn failures_are_told_apart() {
    let codes = ErrorCodes::of_system();
    assert_eq!(codes.classify(libc::EINTR).kind, FailureKind::Interrupted);
    assert_eq!(codes.classify(libc::EINVAL).kind, FailureKind::InvalidArgument);
    assert_eq!(codes.classify(libc::EBADF).kind, FailureKind::BadDescriptor);
    assert_eq!(
        codes.classify(libc::EIO),
        IoFailure { kind: FailureKind::Other, code: libc::EIO }
    );
    let codes = ErrorCodes { interrupted: 1, invalid_argument: 2, bad_descriptor: 3 };
    assert_eq!(
        codes.classify(2),
        IoFailure { kind: FailureKind::InvalidArgument, code: 2 }
    );
    assert_eq!(codes.classify(0), IoFailure { kind: FailureKind::Other, code: 0 });
}

#[test]
fn errors_have_messages() {
    let message = |e: StorageError| e.message();
    assert_eq!(message(StorageError::FilenameRequired), Some("Filename required"));
    assert_eq!(message(StorageError::NoBaseFilename), Some("No filename set for base image"));
    assert_eq!(
        message(StorageError::InvalidBaseFilename),
        Some("Invalid base image filename set")
    );
    assert_eq!(message(StorageError::ReadOffsetOverflow), Some("Read offset overflow"));
    assert_eq!(message(StorageError::WriteOffsetOverflow), Some("Write offset overflow"));
    assert_eq!(message(StorageError::WriteZero), None);
    assert_eq!(message(StorageError::Os(5)), None);
}

#[test]
fn seeking_read_fills_buffer_by_buffer() {
    let size = 12;
    let mut r = file(size).pure_readv_by_seeking(vector(&[3, 0, 4]), 8);
    assert_eq!(r.action(size), SeekReadAction::Read { segment: segment(0, 0, 3), offset: 8 });
    r.advance(2);
    assert_eq!(r.action(size), SeekReadAction::Read { segment: segment(0, 2, 3), offset: 10 });
    r.advance(1);
    assert_eq!(r.action(size), SeekReadAction::Read { segment: segment(2, 0, 4), offset: 11 });
    r.advance(0);
    assert_eq!(r.action(size), SeekReadAction::Read { segment: segment(2, 0, 4), offset: 11 });
    r.advance(1);
    assert_eq!(r.action(size), SeekReadAction::FillWithZeroes { segment: segment(2, 1, 4) });
    r.advance(3);
    assert_eq!(r.action(size), SeekReadAction::Done);
    r.advance(0);
    assert_eq!(r.action(size), SeekReadAction::Done);

    let mut r = SeekReadRequest::new(vector(&[3]), u64::MAX - 1);
    assert_eq!(r.action(size), SeekReadAction::FillWithZeroes { segment: segment(0, 0, 3) });
    r.advance(3);
    assert_eq!(r.action(size), SeekReadAction::Fail(StorageError::ReadOffsetOverflow));
}

#[test]
fn seeking_write_goes_buffer_by_buffer() {
    let mut f = file(10);
    let mut w = f.pure_writev_by_seeking(vector(&[3, 0, 4]), 8);
    assert_eq!(w.action(), SeekWriteAction::Write { segment: segment(0, 0, 3), offset: 8 });
    w.advance(&mut f, 1);
    assert_eq!(f.size(), Ok(10));
    assert_eq!(w.action(), SeekWriteAction::Write { segment: segment(0, 1, 3), offset: 9 });
    w.advance(&mut f, 2);
    assert_eq!(f.size(), Ok(11));
    assert_eq!(w.action(), SeekWriteAction::Write { segment: segment(2, 0, 4), offset: 11 });
    w.advance(&mut f, 4);
    assert_eq!(f.size(), Ok(15));
    assert_eq!(w.action(), SeekWriteAction::Done);

    // Where nothing is written, the file does not grow.
    let mut w = f.pure_writev_by_seeking(vector(&[3]), 20);
    w.advance(&mut f, 0);
    assert_eq!(w.action(), SeekWriteAction::Write { segment: segment(0, 0, 3), offset: 20 });
    assert_eq!(f.size(), Ok(15));

    let mut w = SeekWriteRequest::new(vector(&[3]), u64::MAX - 1);
    w.advance(&mut f, 2);
    assert_eq!(w.action(), SeekWriteAction::Fail(StorageError::WriteOffsetOverflow));
    assert_eq!(f.size(), Ok(15));
}
