//! Writing to a file by calls that take as much of the memory of a request as they can.

use crate::error::{FailureKind, IoFailure, StorageError};
use crate::file::File;
use crate::io_vector::IoVector;
use crate::offset::max_file_offset;
use vstd::prelude::*;

verus! {

/// What to do next for a write request.
#[derive(Clone, Copy, Debug, PartialEq, Eq, Structural)]
pub enum WriteAction {
    /// Write what is left of the memory to the file from `offset` on.
    Write { offset: u64 },
    /// Nothing: the request is done.
    Done,
    /// Nothing: the request has failed.
    Fail(StorageError),
}

/// The state of a write request.
pub struct WriteState {
    /// The memory that is left to be written.
    pub todo: Seq<(int, int)>,
    /// Where to continue.
    pub offset: u64,
    /// The largest offset that the system can be asked for.
    pub max_offset: u64,
    /// The error with which it has failed, if it has.
    pub failed: Option<StorageError>,
}

impl WriteState {
    /// What to do in this state.
    pub open spec fn action(self) -> WriteAction {
        match self.failed {
            Some(e) => WriteAction::Fail(e),
            None => if self.todo.len() == 0 {
                WriteAction::Done
            } else if self.offset > self.max_offset {
                WriteAction::Fail(StorageError::WriteOffsetOverflow)
            } else {
                WriteAction::Write { offset: self.offset }
            },
        }
    }

    /// The state that follows when the file has been written as [`Self::action`] says, and
    /// `result` is how many bytes were written, or the way in which that failed.
    ///
    /// What was interrupted is repeated; it is an error to write nothing.
    pub open spec fn next(self, result: Result<u64, IoFailure>) -> Self {
        if !(self.action() is Write) {
            self
        } else {
            match result {
                Err(f) if f.kind is Interrupted => self,
                Err(f) => WriteState { failed: Some(StorageError::Os(f.code)), ..self },
                Ok(0) => WriteState { failed: Some(StorageError::WriteZero), ..self },
                Ok(n) => if self.offset + n > u64::MAX {
                    WriteState {
                        todo: self.todo.skip(n as int),
                        failed: Some(StorageError::WriteOffsetOverflow),
                        ..self
                    }
                } else {
                    WriteState {
                        todo: self.todo.skip(n as int),
                        offset: (self.offset + n) as u64,
                        ..self
                    }
                },
            }
        }
    }

    /// The size of the file after that, as far as it is known, `size` being that from before.
    pub open spec fn size_after(self, size: u64, result: Result<u64, IoFailure>) -> u64 {
        match result {
            Ok(n) if self.action() is Write && 0 < n && self.offset + n <= u64::MAX => {
                crate::align::max_int(size as int, self.offset + n) as u64
            },
            _ => size,
        }
    }
}

/// A request to write to a file.
pub struct WriteRequest {
    bufv: IoVector,
    offset: u64,
    max_offset: u64,
    failed: Option<StorageError>,
}

impl View for WriteRequest {
    type V = WriteState;

    closed spec fn view(&self) -> WriteState {
        WriteState {
            todo: self.bufv@,
            offset: self.offset,
            max_offset: self.max_offset,
            failed: self.failed,
        }
    }
}

impl WriteRequest {
    /// A request to write `bufv` to the file from `offset` on, on a system that can be asked for
    /// offsets up to `max_offset`.
    pub fn with_max_offset(bufv: IoVector, offset: u64, max_offset: u64) -> (r: Self)
        ensures
            r@ == (WriteState { todo: bufv@, offset, max_offset, failed: None }),
    {
        WriteRequest { bufv, offset, max_offset, failed: None }
    }

    /// A request to write `bufv` to the file from `offset` on, on this system.
    pub fn new(bufv: IoVector, offset: u64) -> (r: Self)
        ensures
            r@ == (WriteState {
                todo: bufv@,
                offset,
                max_offset: libc::off_t::MAX as u64,
                failed: None,
            }),
    {
        WriteRequest::with_max_offset(bufv, offset, max_file_offset() as u64)
    }

    /// The memory that is left to be written.
    pub fn bufv(&self) -> (r: &IoVector)
        ensures
            r@ == self@.todo,
    {
        &self.bufv
    }

    /// What to do next.
    pub fn action(&self) -> (r: WriteAction)
        ensures
            r == self@.action(),
    {
        match self.failed {
            Some(e) => WriteAction::Fail(e),
            None => if self.bufv.is_empty() {
                WriteAction::Done
            } else if self.offset > self.max_offset {
                WriteAction::Fail(StorageError::WriteOffsetOverflow)
            } else {
                WriteAction::Write { offset: self.offset }
            },
        }
    }

    /// Takes note of how the writing went that [`Self::action`] asked for: how many bytes were
    /// written, which cannot be more than there is memory left, or how it failed.
    ///
    /// `file` is the file that is written: its size grows with what is written beyond its end.
    pub fn advance(&mut self, file: &mut File, result: Result<u64, IoFailure>)
        requires
            result matches Ok(n) ==> n <= old(self)@.todo.len(),
        ensures
            final(self)@ == old(self)@.next(result),
            final(file)@ == (crate::file::FileState {
                size: old(self)@.size_after(old(file)@.size, result),
                ..old(file)@
            }),
    {
        match self.action() {
            WriteAction::Write { .. } => {},
            _ => {
                return;
            },
        }
        match result {
            Err(f) => {
                if f.kind != FailureKind::Interrupted {
                    self.failed = Some(StorageError::Os(f.code));
                }
            },
            Ok(n) => {
                if n == 0 {
                    self.failed = Some(StorageError::WriteZero);
                    return;
                }
                self.bufv = self.bufv.split_tail_at(n);
                match self.offset.checked_add(n) {
                    Some(offset) => {
                        self.offset = offset;
                        file.extend_to(offset);
                    },
                    None => {
                        self.failed = Some(StorageError::WriteOffsetOverflow);
                    },
                }
            },
        }
    }
}

} // verus!
