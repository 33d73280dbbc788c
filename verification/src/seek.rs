//! Reading from and writing to a file on systems that transfer one buffer at a time.

use crate::error::StorageError;
use crate::file::File;
use crate::io_vector::{IoVector, Segment};
use vstd::prelude::*;

verus! {

/// What to do next for a read request.
#[derive(Clone, Copy, Debug, PartialEq, Eq, Structural)]
pub enum SeekReadAction {
    /// Read from `offset` on into `segment`.
    Read { segment: Segment, offset: u64 },
    /// The file has ended: fill `segment` with zeroes.
    FillWithZeroes { segment: Segment },
    /// Nothing: the request is done.
    Done,
    /// Nothing: the request has failed.
    Fail(StorageError),
}

/// What to do next for a write request.
#[derive(Clone, Copy, Debug, PartialEq, Eq, Structural)]
pub enum SeekWriteAction {
    /// Write `segment` to the file from `offset` on.
    Write { segment: Segment, offset: u64 },
    /// Nothing: the request is done.
    Done,
    /// Nothing: the request has failed.
    Fail(StorageError),
}

/// The state of a request.
pub struct SeekState {
    /// The memory that is left.
    pub todo: Seq<(int, int)>,
    /// Where in the file to continue.
    pub offset: u64,
    /// The error with which it has failed, if it has.
    pub failed: Option<StorageError>,
}

impl SeekState {
    /// There is something left to be done.
    pub open spec fn active(self) -> bool {
        self.failed is None && self.todo.len() > 0
    }

    /// `action` is what to do for a read request in this state, `size` being that of the file.
    pub open spec fn asks_read(self, size: u64, action: SeekReadAction) -> bool {
        match self.failed {
            Some(e) => action == SeekReadAction::Fail(e),
            None => if self.todo.len() == 0 {
                action is Done
            } else if self.offset >= size {
                action matches SeekReadAction::FillWithZeroes { segment }
                    && crate::io_vector::is_leading_segment(self.todo, segment)
            } else {
                action matches SeekReadAction::Read { segment, offset }
                    && crate::io_vector::is_leading_segment(self.todo, segment) && offset
                    == self.offset
            },
        }
    }

    /// `action` is what to do for a write request in this state.
    pub open spec fn asks_write(self, action: SeekWriteAction) -> bool {
        match self.failed {
            Some(e) => action == SeekWriteAction::Fail(e),
            None => if self.todo.len() == 0 {
                action is Done
            } else {
                action matches SeekWriteAction::Write { segment, offset }
                    && crate::io_vector::is_leading_segment(self.todo, segment) && offset
                    == self.offset
            },
        }
    }

    /// The state that follows when `n` bytes have been transferred, or else filled with zeroes.
    /// `overflow` is the error if the offset that follows cannot be represented.
    pub open spec fn next(self, n: u64, overflow: StorageError) -> Self {
        if !self.active() {
            self
        } else if self.offset + n > u64::MAX {
            SeekState { failed: Some(overflow), ..self }
        } else {
            SeekState {
                todo: self.todo.skip(n as int),
                offset: (self.offset + n) as u64,
                ..self
            }
        }
    }

    /// The size of the file after `n` bytes have been written, as far as it is known, `size` being
    /// that from before.
    pub open spec fn size_after(self, size: u64, n: u64) -> u64 {
        if self.active() && 0 < n && self.offset + n <= u64::MAX {
            crate::align::max_int(size as int, self.offset + n) as u64
        } else {
            size
        }
    }
}

/// A request to read from a file.
pub struct SeekReadRequest {
    bufv: IoVector,
    offset: u64,
    failed: Option<StorageError>,
}

impl View for SeekReadRequest {
    type V = SeekState;

    closed spec fn view(&self) -> SeekState {
        SeekState { todo: self.bufv@, offset: self.offset, failed: self.failed }
    }
}

impl SeekReadRequest {
    /// A request to fill `bufv` with what the file holds from `offset` on.
    pub fn new(bufv: IoVector, offset: u64) -> (r: Self)
        ensures
            r@ == (SeekState { todo: bufv@, offset, failed: None }),
    {
        SeekReadRequest { bufv, offset, failed: None }
    }

    /// What to do next, `size` being that of the file.
    pub fn action(&self, size: u64) -> (r: SeekReadAction)
        ensures
            self@.asks_read(size, r),
    {
        if let Some(e) = self.failed {
            return SeekReadAction::Fail(e);
        }
        match self.bufv.first_segment() {
            None => SeekReadAction::Done,
            Some(segment) => if self.offset >= size {
                SeekReadAction::FillWithZeroes { segment }
            } else {
                SeekReadAction::Read { segment, offset: self.offset }
            },
        }
    }

    /// Takes note that `n` bytes have been read, or filled with zeroes, as [`Self::action`] asked
    /// for.
    pub fn advance(&mut self, n: u64)
        requires
            n <= old(self)@.todo.len(),
        ensures
            final(self)@ == old(self)@.next(n, StorageError::ReadOffsetOverflow),
    {
        if self.failed.is_some() || self.bufv.is_empty() {
            return;
        }
        match self.offset.checked_add(n) {
            Some(offset) => {
                self.offset = offset;
                self.bufv = self.bufv.split_tail_at(n);
            },
            None => {
                self.failed = Some(StorageError::ReadOffsetOverflow);
            },
        }
    }
}

/// A request to write to a file.
pub struct SeekWriteRequest {
    bufv: IoVector,
    offset: u64,
    failed: Option<StorageError>,
}

impl View for SeekWriteRequest {
    type V = SeekState;

    closed spec fn view(&self) -> SeekState {
        SeekState { todo: self.bufv@, offset: self.offset, failed: self.failed }
    }
}

impl SeekWriteRequest {
    /// A request to write `bufv` to the file from `offset` on.
    pub fn new(bufv: IoVector, offset: u64) -> (r: Self)
        ensures
            r@ == (SeekState { todo: bufv@, offset, failed: None }),
    {
        SeekWriteRequest { bufv, offset, failed: None }
    }

    /// What to do next.
    pub fn action(&self) -> (r: SeekWriteAction)
        ensures
            self@.asks_write(r),
    {
        if let Some(e) = self.failed {
            return SeekWriteAction::Fail(e);
        }
        match self.bufv.first_segment() {
            None => SeekWriteAction::Done,
            Some(segment) => SeekWriteAction::Write { segment, offset: self.offset },
        }
    }

    /// Takes note that `n` bytes have been written as [`Self::action`] asked for.
    ///
    /// `file` is the file that is written: its size grows with what is written beyond its end.
    pub fn advance(&mut self, file: &mut File, n: u64)
        requires
            n <= old(self)@.todo.len(),
        ensures
            final(self)@ == old(self)@.next(n, StorageError::WriteOffsetOverflow),
            final(file)@ == (crate::file::FileState {
                size: old(self)@.size_after(old(file)@.size, n),
                ..old(file)@
            }),
    {
        if self.failed.is_some() || self.bufv.is_empty() {
            return;
        }
        match self.offset.checked_add(n) {
            Some(offset) => {
                self.offset = offset;
                if n > 0 {
                    file.extend_to(offset);
                }
                self.bufv = self.bufv.split_tail_at(n);
            },
            None => {
                self.failed = Some(StorageError::WriteOffsetOverflow);
            },
        }
    }
}

} // verus!
