//! Reading from a file by calls that fill as much of the memory of a request as they can.

use crate::error::{FailureKind, IoFailure, StorageError};
use crate::io_vector::IoVector;
use crate::offset::max_file_offset;
use vstd::prelude::*;

verus! {

/// What to do next for a read request.
#[derive(Clone, Copy, Debug, PartialEq, Eq, Structural)]
pub enum ReadAction {
    /// Read from `offset` on into the memory that is left.
    Read { offset: u64 },
    /// The file has ended: fill the memory that is left with zeroes, and the request is done.
    FillWithZeroes,
    /// Nothing: the request is done.
    Done,
    /// Nothing: the request has failed.
    Fail(StorageError),
}

/// How far a read request has come.
#[derive(Clone, Copy, Debug, PartialEq, Eq, Structural)]
pub enum ReadStage {
    /// There may be something left to be read.
    Reading,
    /// The end of the file has been reached.
    AtEnd,
    /// It has failed.
    Failed(StorageError),
}

/// The state of a read request.
pub struct ReadState {
    /// The memory that is left to be filled.
    pub todo: Seq<(int, int)>,
    /// Where to continue.
    pub offset: u64,
    /// The largest offset that the system can be asked for.
    pub max_offset: u64,
    /// The stage that it is at.
    pub stage: ReadStage,
}

impl ReadState {
    /// What to do in this state.
    pub open spec fn action(self) -> ReadAction {
        match self.stage {
            ReadStage::Failed(e) => ReadAction::Fail(e),
            ReadStage::AtEnd => ReadAction::FillWithZeroes,
            ReadStage::Reading => if self.todo.len() == 0 {
                ReadAction::Done
            } else if self.offset > self.max_offset {
                ReadAction::Fail(StorageError::ReadOffsetOverflow)
            } else {
                ReadAction::Read { offset: self.offset }
            },
        }
    }

    /// The state that follows when the file has been read as [`Self::action`] says, and `result`
    /// is how many bytes were read, or the way in which that failed.
    ///
    /// What was interrupted is repeated; where nothing is read, the file has ended.
    pub open spec fn next(self, result: Result<u64, IoFailure>) -> Self {
        if !(self.action() is Read) {
            self
        } else {
            match result {
                Err(f) if f.kind is Interrupted => self,
                Err(f) => ReadState { stage: ReadStage::Failed(StorageError::Os(f.code)), ..self },
                Ok(0) => ReadState { stage: ReadStage::AtEnd, ..self },
                Ok(n) => if self.offset + n > u64::MAX {
                    ReadState {
                        todo: self.todo.skip(n as int),
                        stage: ReadStage::Failed(StorageError::ReadOffsetOverflow),
                        ..self
                    }
                } else {
                    ReadState {
                        todo: self.todo.skip(n as int),
                        offset: (self.offset + n) as u64,
                        ..self
                    }
                },
            }
        }
    }
}

/// A request to read from a file.
pub struct ReadRequest {
    bufv: IoVector,
    offset: u64,
    max_offset: u64,
    stage: ReadStage,
}

impl View for ReadRequest {
    type V = ReadState;

    closed spec fn view(&self) -> ReadState {
        ReadState {
            todo: self.bufv@,
            offset: self.offset,
            max_offset: self.max_offset,
            stage: self.stage,
        }
    }
}

impl ReadRequest {
    /// A request to fill `bufv` with what the file holds from `offset` on, on a system that can be
    /// asked for offsets up to `max_offset`.
    pub fn with_max_offset(bufv: IoVector, offset: u64, max_offset: u64) -> (r: Self)
        ensures
            r@ == (ReadState { todo: bufv@, offset, max_offset, stage: ReadStage::Reading }),
    {
        ReadRequest { bufv, offset, max_offset, stage: ReadStage::Reading }
    }

    /// A request to fill `bufv` with what the file holds from `offset` on, on this system.
    pub fn new(bufv: IoVector, offset: u64) -> (r: Self)
        ensures
            r@ == (ReadState {
                todo: bufv@,
                offset,
                max_offset: libc::off_t::MAX as u64,
                stage: ReadStage::Reading,
            }),
    {
        ReadRequest::with_max_offset(bufv, offset, max_file_offset() as u64)
    }

    /// The memory that is left to be filled.
    pub fn bufv(&self) -> (r: &IoVector)
        ensures
            r@ == self@.todo,
    {
        &self.bufv
    }

    /// What to do next.
    pub fn action(&self) -> (r: ReadAction)
        ensures
            r == self@.action(),
    {
        match self.stage {
            ReadStage::Failed(e) => ReadAction::Fail(e),
            ReadStage::AtEnd => ReadAction::FillWithZeroes,
            ReadStage::Reading => if self.bufv.is_empty() {
                ReadAction::Done
            } else if self.offset > self.max_offset {
                ReadAction::Fail(StorageError::ReadOffsetOverflow)
            } else {
                ReadAction::Read { offset: self.offset }
            },
        }
    }

    /// Takes note of how the reading went that [`Self::action`] asked for: how many bytes were
    /// read, which cannot be more than there is memory left, or how it failed.
    pub fn advance(&mut self, result: Result<u64, IoFailure>)
        requires
            result matches Ok(n) ==> n <= old(self)@.todo.len(),
        ensures
            final(self)@ == old(self)@.next(result),
    {
        match self.action() {
            ReadAction::Read { .. } => {},
            _ => {
                return;
            },
        }
        match result {
            Err(f) => {
                if f.kind != FailureKind::Interrupted {
                    self.stage = ReadStage::Failed(StorageError::Os(f.code));
                }
            },
            Ok(n) => {
                if n == 0 {
                    self.stage = ReadStage::AtEnd;
                    return;
                }
                self.bufv = self.bufv.split_tail_at(n);
                match self.offset.checked_add(n) {
                    Some(offset) => {
                        self.offset = offset;
                    },
                    None => {
                        self.stage = ReadStage::Failed(StorageError::ReadOffsetOverflow);
                    },
                }
            },
        }
    }
}

} // verus!
