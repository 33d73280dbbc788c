//! A plain file or host block device that is used as storage: what is known of it, and what is to
//! be done with it.

use crate::align::Alignments;
use crate::discard::{
    plan_punching_on_system, plan_truncate, plan_zeroing, DiscardPlan, TruncatePlan,
};
use crate::error::StorageError;
use crate::io_vector::IoVector;
use crate::path::{describe, resolve};
use crate::read::ReadRequest;
use crate::seek::{SeekReadRequest, SeekWriteRequest};
use crate::write::WriteRequest;
use std::path::PathBuf;
use vstd::arithmetic::power2::*;
use vstd::prelude::*;

verus! {

/// Which file to use, and how.
pub struct StorageOpenOptions {
    /// The name of the file.
    pub filename: Option<PathBuf>,
    /// Whether the file is to be written.
    pub writable: bool,
    /// Whether to bypass the host cache.
    pub direct: bool,
}

/// How to open a file.
pub struct OpenPlan {
    /// The name of the file.
    pub filename: PathBuf,
    /// Whether to open it for reading.
    pub read: bool,
    /// Whether to open it for writing.
    pub write: bool,
    /// Whether to ask for the host cache to be bypassed.
    pub direct: bool,
}

/// What is known of a file.
pub struct FileState {
    /// Its name.
    pub filename: Option<PathBuf>,
    /// Minimal I/O alignment for requests.
    pub req_align: usize,
    /// Minimal memory buffer alignment.
    pub mem_align: usize,
    /// Cached file length.
    ///
    /// Third parties changing the length concurrently is pretty certain to break things anyway.
    pub size: u64,
}

impl FileState {
    /// What is known once the file reaches up to `end` at least.
    pub open spec fn extended(self, end: u64) -> FileState {
        FileState {
            size: if end > self.size {
                end
            } else {
                self.size
            },
            ..self
        }
    }

    /// What is known once the file has been cut off at `len`.
    pub open spec fn cut_off(self, len: u64) -> FileState {
        FileState {
            size: if len < self.size {
                len
            } else {
                self.size
            },
            ..self
        }
    }

    /// How to discard a range on a system that can deallocate parts of a file.
    pub open spec fn discard_plan(self, offset: u64, length: u64) -> DiscardPlan {
        crate::discard::punching_plan(self.size, offset, length, libc::off_t::MAX as i64)
    }

    /// How to zero a range on a system that can deallocate parts of a file.
    pub open spec fn write_zeroes_plan(self, offset: u64, length: u64) -> DiscardPlan {
        self.discard_plan(offset, length)
    }

    /// How to discard a range on a system that can zero parts of a file.
    pub open spec fn discard_by_zeroing_plan(self, offset: u64, length: u64) -> DiscardPlan {
        crate::discard::zeroing_plan(self.size, offset, length)
    }

    /// How to zero a range on a system that can zero parts of a file.
    pub open spec fn write_zeroes_by_zeroing_plan(self, offset: u64, length: u64) -> DiscardPlan {
        self.discard_by_zeroing_plan(offset, length)
    }
}

/// The known size follows the length of the file: where it is the length, it is so after the file
/// has been written up to `end`, and after it has been cut off at `len`; and nothing else that is
/// known of the file is changed.
pub proof fn law_known_size_follows_length(
    file: FileState,
    contents: Seq<u8>,
    offset: u64,
    data: Seq<u8>,
    end: u64,
    len: u64,
)
    requires
        contents.len() == file.size,
        data.len() > 0,
        offset + data.len() == end,
    ensures
        file.extended(end).size == crate::contents::written(contents, offset as int, data).len(),
        len <= file.size ==> file.cut_off(len).size == crate::contents::resized(
            contents,
            len as nat,
        ).len(),
        len >= file.size ==> file.cut_off(len) == file,
        file.extended(end).cut_off(len).size <= len,
        file.cut_off(len).extended(end).size >= end,
        file.extended(end).filename == file.filename,
        file.extended(end).req_align == file.req_align,
        file.extended(end).mem_align == file.mem_align,
        file.cut_off(len).filename == file.filename,
        file.cut_off(len).req_align == file.req_align,
        file.cut_off(len).mem_align == file.mem_align,
{
}

/// Writing zeroes to a range is the same as discarding it; in particular, beyond the end of the
/// file there is nothing to do, and the file is not extended.
pub proof fn law_writing_zeroes_is_discarding(
    file: FileState,
    contents: Seq<u8>,
    offset: u64,
    length: u64,
)
    ensures
        file.write_zeroes_plan(offset, length) == file.discard_plan(offset, length),
        file.write_zeroes_by_zeroing_plan(offset, length) == file.discard_by_zeroing_plan(
            offset,
            length,
        ),
        offset >= file.size ==> {
            &&& crate::discard::carried_out(contents, file.write_zeroes_plan(offset, length))
                == contents
            &&& crate::discard::carried_out(
                contents,
                file.write_zeroes_by_zeroing_plan(offset, length),
            ) == contents
        },
{
}

/// On a system that can deallocate parts of a file, a range that has been discarded reads as zeroes,
/// and discarding it has changed no other byte.
///
/// The known size of the file is not below its length, and an offset that the system can be asked
/// for.
pub proof fn law_discarded_range_reads_as_zeroes(
    file: FileState,
    contents: Seq<u8>,
    offset: u64,
    length: u64,
    i: int,
)
    requires
        contents.len() <= file.size <= libc::off_t::MAX,
    ensures
        crate::contents::byte_at(
            crate::discard::carried_out(contents, file.discard_plan(offset, length)),
            i,
        ) == if offset <= i < offset + length {
            0
        } else {
            crate::contents::byte_at(contents, i)
        },
{
    let max = libc::off_t::MAX as i64;
    crate::discard::law_no_range_is_skipped(file.size, offset, length, max);
    crate::discard::law_punched_range_reads_as_zeroes(contents, file.size, offset, length, max, i);
}

/// How a range of a file is discarded on a system that can deallocate parts of a file: beyond the
/// known end of the file, there is nothing to do; a range that reaches it is cut off; of any other,
/// exactly that range is deallocated, if the system can be asked for it.  Nothing is zeroed in any
/// other way.
pub proof fn law_file_is_deallocated(file: FileState, offset: u64, length: u64)
    ensures
        match file.discard_plan(offset, length) {
            DiscardPlan::Nothing => file.size <= offset,
            DiscardPlan::SetLen(len) => len == offset && offset < file.size <= offset + length,
            DiscardPlan::PunchHole { offset: from, length: len } => {
                &&& from == offset
                &&& len == length
                &&& offset + length < file.size
            },
            DiscardPlan::ZeroRange { .. } => false,
            DiscardPlan::Skip => {
                &&& offset + length < file.size
                &&& offset > libc::off_t::MAX || length > libc::off_t::MAX
            },
        },
        offset <= libc::off_t::MAX && length <= libc::off_t::MAX ==> !(file.discard_plan(
            offset,
            length,
        ) is Skip),
        offset > libc::off_t::MAX || length > libc::off_t::MAX ==> !(file.discard_plan(
            offset,
            length,
        ) is PunchHole),
{
    crate::discard::law_range_is_deallocated(file.size, offset, length, libc::off_t::MAX as i64);
}

/// How a range of a file is discarded on a system that can zero parts of a file: as on one that can
/// deallocate them, but that the range is zeroed, up to and including the byte after it, and that
/// nothing is deallocated.
pub proof fn law_file_is_zeroed(file: FileState, offset: u64, length: u64)
    ensures
        match file.discard_by_zeroing_plan(offset, length) {
            DiscardPlan::Nothing => file.size <= offset,
            DiscardPlan::SetLen(len) => len == offset && offset < file.size <= offset + length,
            DiscardPlan::PunchHole { .. } => false,
            DiscardPlan::ZeroRange { offset: from, end } => {
                &&& from == offset
                &&& end == offset + length + 1 || (end == i64::MAX && offset + length >= i64::MAX)
                &&& offset + length < file.size
            },
            DiscardPlan::Skip => {
                &&& offset + length < file.size
                &&& offset > i64::MAX || length > i64::MAX
            },
        },
        offset <= i64::MAX && length <= i64::MAX ==> !(file.discard_by_zeroing_plan(
            offset,
            length,
        ) is Skip),
{
    crate::discard::law_range_is_zeroed(file.size, offset, length);
}

/// A plain file or host block device that is used as storage.
///
/// Its alignments are powers of two.
#[derive(Debug)]
pub struct File {
    filename: Option<PathBuf>,
    req_align: usize,
    mem_align: usize,
    size: u64,
}

impl View for File {
    type V = FileState;

    closed spec fn view(&self) -> FileState {
        FileState {
            filename: self.filename,
            req_align: self.req_align,
            mem_align: self.mem_align,
            size: self.size,
        }
    }
}

impl File {
    #[verifier::type_invariant]
    spec fn well_formed(self) -> bool {
        &&& is_pow2(self.req_align as int)
        &&& is_pow2(self.mem_align as int)
    }

    /// Decides how to open a file; it cannot be done without a name.
    pub fn do_open_sync(opts: StorageOpenOptions) -> (r: Result<OpenPlan, StorageError>)
        ensures
            r == match opts.filename {
                Some(filename) => Ok::<OpenPlan, StorageError>(
                    OpenPlan { filename, read: true, write: opts.writable, direct: opts.direct },
                ),
                None => Err(StorageError::FilenameRequired),
            },
    {
        match opts.filename {
            Some(filename) => Ok(
                OpenPlan { filename, read: true, write: opts.writable, direct: opts.direct },
            ),
            None => Err(StorageError::FilenameRequired),
        }
    }

    /// Describes a file of this size, which demands these alignments of its users.
    pub fn new(filename: Option<PathBuf>, size: u64, alignments: Alignments) -> (r: Self)
        requires
            alignments.valid(),
        ensures
            r@ == (FileState {
                filename,
                req_align: alignments.req_align,
                mem_align: alignments.mem_align,
                size,
            }),
    {
        File {
            filename,
            req_align: alignments.req_align,
            mem_align: alignments.mem_align,
            size,
        }
    }

    /// Minimal memory buffer alignment, a power of two.
    pub fn mem_align(&self) -> (r: usize)
        ensures
            r == self@.mem_align,
            is_pow2(r as int),
    {
        proof {
            use_type_invariant(self);
        }
        self.mem_align
    }

    /// Minimal I/O alignment for requests, a power of two.
    pub fn req_align(&self) -> (r: usize)
        ensures
            r == self@.req_align,
            is_pow2(r as int),
    {
        proof {
            use_type_invariant(self);
        }
        self.req_align
    }

    /// The cached file length.
    pub fn size(&self) -> (r: Result<u64, StorageError>)
        ensures
            r == Ok::<u64, StorageError>(self@.size),
    {
        Ok(self.size)
    }

    /// Takes note that the file reaches up to `end` at least.
    pub fn extend_to(&mut self, end: u64)
        ensures
            final(self)@ == (FileState {
                size: crate::align::max_int(old(self)@.size as int, end as int) as u64,
                ..old(self)@
            }),
            final(self)@ == old(self)@.extended(end),
    {
        if end > self.size {
            proof {
                use_type_invariant(&*self);
            }
            self.size = end;
        }
    }

    /// Takes note that the file has been cut off at `len`.
    pub fn truncated(&mut self, len: u64)
        ensures
            final(self)@ == (FileState {
                size: crate::align::min_int(old(self)@.size as int, len as int) as u64,
                ..old(self)@
            }),
            final(self)@ == old(self)@.cut_off(len),
    {
        if len < self.size {
            proof {
                use_type_invariant(&*self);
            }
            self.size = len;
        }
    }

    /// Resolves a path that is relative to the directory that this file is in.
    pub fn resolve_relative_path(&self, relative: PathBuf) -> (r: Result<PathBuf, StorageError>)
        ensures
            match r {
                Ok(path) => crate::path::resolved(
                    crate::path::path_bytes(relative),
                    crate::path::name_bytes(self@.filename),
                ) == Ok::<Seq<u8>, StorageError>(crate::path::path_bytes(path)),
                Err(e) => crate::path::resolved(
                    crate::path::path_bytes(relative),
                    crate::path::name_bytes(self@.filename),
                ) == Err::<Seq<u8>, StorageError>(e),
            },
            crate::path::name_bytes(self@.filename) matches Some(name) && name.len() == 0
                && !crate::path::path_is_absolute(crate::path::path_bytes(relative)) ==> r == Err::<
                PathBuf,
                StorageError,
            >(StorageError::InvalidBaseFilename),
            crate::path::path_is_absolute(crate::path::path_bytes(relative)) ==> r == Ok::<
                PathBuf,
                StorageError,
            >(relative),
            !crate::path::path_is_absolute(crate::path::path_bytes(relative)) ==> match
                self@.filename {
                None => r == Err::<PathBuf, StorageError>(StorageError::NoBaseFilename),
                Some(name) => match crate::path::path_parent(crate::path::path_bytes(name)) {
                    None => r == Err::<PathBuf, StorageError>(StorageError::InvalidBaseFilename),
                    Some(directory) => r matches Ok(path) && crate::path::path_bytes(path)
                        == crate::path::path_join(directory, crate::path::path_bytes(relative)),
                },
            },
    {
        resolve(relative, &self.filename)
    }

    /// How to call the file in messages: by its name, quoted, if that is known.
    pub fn display(&self) -> (r: String)
        ensures
            r@ == crate::path::description(
                match crate::path::name_bytes(self@.filename) {
                    Some(name) => Some(crate::path::path_quoted(name)),
                    None => None,
                },
            ),
    {
        describe(&self.filename)
    }

    /// Starts reading what the file holds from `offset` on into `bufv`.
    pub fn pure_readv(&self, bufv: IoVector, offset: u64) -> (r: ReadRequest)
        ensures
            r@ == (crate::read::ReadState {
                todo: bufv@,
                offset,
                max_offset: libc::off_t::MAX as u64,
                stage: crate::read::ReadStage::Reading,
            }),
    {
        ReadRequest::new(bufv, offset)
    }

    /// Starts writing `bufv` to the file from `offset` on.
    pub fn pure_writev(&self, bufv: IoVector, offset: u64) -> (r: WriteRequest)
        ensures
            r@ == (crate::write::WriteState {
                todo: bufv@,
                offset,
                max_offset: libc::off_t::MAX as u64,
                failed: None,
            }),
    {
        WriteRequest::new(bufv, offset)
    }

    /// As [`Self::pure_readv`], on systems that transfer one buffer at a time.
    pub fn pure_readv_by_seeking(&self, bufv: IoVector, offset: u64) -> (r: SeekReadRequest)
        ensures
            r@ == (crate::seek::SeekState { todo: bufv@, offset, failed: None }),
    {
        SeekReadRequest::new(bufv, offset)
    }

    /// As [`Self::pure_writev`], on systems that transfer one buffer at a time.
    pub fn pure_writev_by_seeking(&self, bufv: IoVector, offset: u64) -> (r: SeekWriteRequest)
        ensures
            r@ == (crate::seek::SeekState { todo: bufv@, offset, failed: None }),
    {
        SeekWriteRequest::new(bufv, offset)
    }

    /// Decides whether a range can be discarded by cutting the file off.  When that has been done,
    /// it is to be reported by [`Self::truncated`].
    pub fn try_discard_by_truncate(&self, offset: u64, length: u64) -> (r: TruncatePlan)
        ensures
            r == crate::discard::truncate_plan(self@.size, offset, length),
    {
        plan_truncate(self.size, offset, length)
    }

    /// Decides how to discard a range on a system that can deallocate parts of a file.
    pub fn pure_discard(&self, offset: u64, length: u64) -> (r: DiscardPlan)
        ensures
            r == self@.discard_plan(offset, length),
    {
        plan_punching_on_system(self.size, offset, length)
    }

    /// Decides how to discard a range on a system that can zero parts of a file.
    pub fn pure_discard_by_zeroing(&self, offset: u64, length: u64) -> (r: DiscardPlan)
        ensures
            r == self@.discard_by_zeroing_plan(offset, length),
    {
        plan_zeroing(self.size, offset, length)
    }

    /// Decides how to zero a range on a system that can zero parts of a file.
    pub fn pure_write_zeroes_by_zeroing(&self, offset: u64, length: u64) -> (r: DiscardPlan)
        ensures
            r == self@.write_zeroes_by_zeroing_plan(offset, length),
    {
        self.pure_discard_by_zeroing(offset, length)
    }

    /// Decides how to zero a range on a system that can deallocate parts of a file: every way of
    /// discarding a range also makes it read as zeroes.
    pub fn pure_write_zeroes(&self, offset: u64, length: u64) -> (r: DiscardPlan)
        ensures
            r == self@.write_zeroes_plan(offset, length),
    {
        self.pure_discard(offset, length)
    }
}

} // verus!
