//! Finding out by trial which alignments a file demands of its users.
//!
//! A [`Probe`] names one access after the other: read a piece of the file into a piece of a test
//! buffer, or write back the data that has just been read.  Whoever drives it performs the access
//! and reports how it went, until the probe says which alignments it has settled on.
//!
//! Only a piece that has been read completely is written back, so that nothing is ever written to
//! the file but what it holds already.
//!
//! First the request alignment is looked for: the candidate is both the offset and the length of
//! the request.  Then it is the turn of the memory alignment: the request is at offset 0, and its
//! buffer is the last piece of the test buffer that is as long as the candidate, so that its
//! address is a multiple of the candidate but not of anything larger.

use crate::align::{is_power_of_two, system_page_size, Alignments};
use crate::error::{FailureKind, IoFailure};
use vstd::arithmetic::power2::*;
use vstd::prelude::*;

verus! {

/// The largest request alignment to try.
pub const MAX_REQ_ALIGN: usize = 65536;

/// The request alignment to fall back to in case something goes wrong, unless a larger one has
/// been refused already.
pub const SAFE_REQ_ALIGN: usize = 4096;

/// The smallest request alignment above the minimum to try: there is no reason to try anything
/// between 1 and it.
pub const FIRST_REQ_ALIGN: usize = 512;

/// There is no reason to try any memory alignment between 1 and the page size or this, whichever
/// is smaller.
pub const FIRST_MEM_ALIGN: usize = 4096;

/// How an access went that was made to test an alignment.
#[derive(Clone, Copy, Debug, PartialEq, Eq, Structural)]
pub enum AccessOutcome {
    /// It was done.
    Aligned,
    /// It was refused as misaligned.
    Misaligned,
    /// It failed for another reason, namely this.
    Failed(IoFailure),
}

/// What follows the reading part of an access.
#[derive(Clone, Copy, Debug, PartialEq, Eq, Structural)]
pub enum AccessStep {
    /// Nothing: this is how the access went.
    Finished(AccessOutcome),
    /// The data is to be written back.
    WriteBack,
}

/// What follows after reading, where `len` bytes were asked for, and `result` is how many were
/// read, or the way in which that failed.
pub open spec fn step_after_read(
    result: Result<u64, IoFailure>,
    len: usize,
    may_write: bool,
) -> AccessStep {
    match result {
        Err(f) if f.kind is InvalidArgument => AccessStep::Finished(AccessOutcome::Misaligned),
        Err(f) => AccessStep::Finished(AccessOutcome::Failed(f)),
        Ok(n) => if may_write && n == len {
            AccessStep::WriteBack
        } else {
            AccessStep::Finished(AccessOutcome::Aligned)
        },
    }
}

/// How an access went whose data was written back, where `result` is how many bytes were written,
/// or the way in which that failed.
pub open spec fn outcome_after_write(result: Result<u64, IoFailure>) -> AccessOutcome {
    match result {
        Err(f) if f.kind is InvalidArgument => AccessOutcome::Misaligned,
        Err(f) if f.kind is BadDescriptor => AccessOutcome::Aligned,
        Err(f) => AccessOutcome::Failed(f),
        Ok(_) => AccessOutcome::Aligned,
    }
}

/// Whether `result` shows that the file cannot be written at all.
pub open spec fn shows_read_only(result: Result<u64, IoFailure>) -> bool {
    result matches Err(f) && f.kind is BadDescriptor
}

/// Judges the reading part of an access, where `len` bytes were asked for, and `result` is how many
/// were read, or the way in which that failed.
///
/// `may_write` tells whether writing is allowed (the same data as was read), which makes the test
/// more reliable.  Where less was read than was asked for, there is no such piece of the file to be
/// written.
pub fn after_read(result: Result<u64, IoFailure>, len: usize, may_write: bool) -> (r: AccessStep)
    ensures
        r == step_after_read(result, len, may_write),
{
    match result {
        Err(f) => if f.kind == FailureKind::InvalidArgument {
            AccessStep::Finished(AccessOutcome::Misaligned)
        } else {
            AccessStep::Finished(AccessOutcome::Failed(f))
        },
        Ok(n) => if may_write && n == len as u64 {
            AccessStep::WriteBack
        } else {
            AccessStep::Finished(AccessOutcome::Aligned)
        },
    }
}

/// Judges the writing part of an access.
///
/// `may_write` becomes `false` where writing turns out to not be possible.
pub fn after_write(result: Result<u64, IoFailure>, may_write: &mut bool) -> (r: AccessOutcome)
    ensures
        r == outcome_after_write(result),
        *final(may_write) == (*old(may_write) && !shows_read_only(result)),
{
    match result {
        Err(f) => if f.kind == FailureKind::InvalidArgument {
            AccessOutcome::Misaligned
        } else if f.kind == FailureKind::BadDescriptor {
            *may_write = false;
            AccessOutcome::Aligned
        } else {
            AccessOutcome::Failed(f)
        },
        Ok(_) => AccessOutcome::Aligned,
    }
}

/// An access to the file that tests an alignment.
#[derive(Clone, Copy, Debug, PartialEq, Eq, Structural)]
pub struct ProbeAccess {
    /// Where in the test buffer the data goes to, and comes from.
    pub start: usize,
    /// How much data it is.
    pub len: usize,
    /// Where in the file the data is.
    pub offset: usize,
}

/// What to do next.
#[derive(Clone, Copy, Debug, PartialEq, Eq, Structural)]
pub enum ProbeAction {
    /// Read from the file.
    Read(ProbeAccess),
    /// Write what the test buffer holds.
    Write(ProbeAccess),
    /// Nothing: these are the alignments.
    Done(Alignments),
}

/// How far a probe has come.
#[derive(Clone, Copy, Debug, PartialEq, Eq, Structural)]
pub enum ProbeStage {
    /// `align` is the request alignment to try next.
    Request { align: usize },
    /// `align` is the memory alignment to try next.
    Memory { req_align: usize, align: usize },
    /// Both alignments are known.
    Done { req_align: usize, mem_align: usize },
}

/// The state of a probe.
#[derive(Clone, Copy, Debug, PartialEq, Eq, Structural)]
pub struct ProbeState {
    /// The page size of the system.
    pub page_size: usize,
    /// The request alignment to start at.
    pub min_req_align: usize,
    /// The memory alignment to start at.
    pub min_mem_align: usize,
    /// No attempt to write has shown yet that the file cannot be written.
    pub writable: bool,
    /// The data of the current access has been read and is to be written back.
    pub writing: bool,
    /// The stage that the probe is at.
    pub stage: ProbeStage,
}

/// The largest memory alignment to try; also the size and the alignment of the test buffer.
pub open spec fn max_mem_align(page_size: int) -> int {
    crate::align::max_int(page_size, MAX_REQ_ALIGN as int)
}

/// The memory alignment to fall back to in case something goes wrong.
pub open spec fn safe_mem_align(page_size: int) -> int {
    crate::align::max_int(page_size, SAFE_REQ_ALIGN as int)
}

/// The candidate that follows `align` when the first one is `min` and nothing between it and
/// `first` is worth trying.
pub open spec fn next_candidate(min: int, first: int, align: int) -> int {
    if align == min {
        crate::align::max_int(2 * min, first)
    } else {
        2 * align
    }
}

/// A probe can start at these alignments.
pub open spec fn can_probe(page_size: int, min_req_align: int, min_mem_align: int) -> bool {
    &&& is_pow2(page_size)
    &&& is_pow2(min_req_align)
    &&& is_pow2(min_mem_align)
    &&& min_req_align <= max_mem_align(page_size)
    &&& min_mem_align <= max_mem_align(page_size)
}

impl ProbeState {
    /// The state in which a probe starts.
    pub open spec fn start(page_size: usize, min_req_align: usize, min_mem_align: usize) -> Self {
        ProbeState {
            page_size,
            min_req_align,
            min_mem_align,
            writable: true,
            writing: false,
            stage: ProbeStage::Request { align: min_req_align },
        }
    }

    /// What holds of the state at all times.
    pub open spec fn valid(self) -> bool {
        &&& can_probe(
            self.page_size as int,
            self.min_req_align as int,
            self.min_mem_align as int,
        )
        &&& self.writing ==> self.writable
        &&& match self.stage {
            ProbeStage::Request { align } => self.possible_req_align(align),
            ProbeStage::Memory { req_align, align } => {
                &&& self.possible_req_align(req_align)
                &&& self.possible_mem_align(align)
            },
            ProbeStage::Done { req_align, mem_align } => {
                &&& self.possible_req_align(req_align)
                &&& self.possible_mem_align(mem_align)
                &&& !self.writing
            },
        }
    }

    pub open spec fn possible_req_align(self, align: usize) -> bool {
        &&& is_pow2(align as int)
        &&& self.min_req_align <= align <= max_mem_align(self.page_size as int)
    }

    pub open spec fn possible_mem_align(self, align: usize) -> bool {
        &&& is_pow2(align as int)
        &&& self.min_mem_align <= align <= max_mem_align(self.page_size as int)
    }

    /// The access that tests the current candidate.
    pub open spec fn access(self) -> ProbeAccess {
        match self.stage {
            ProbeStage::Request { align } => ProbeAccess { start: 0, len: align, offset: align },
            ProbeStage::Memory { align, .. } => ProbeAccess {
                start: (max_mem_align(self.page_size as int) - align) as usize,
                len: align,
                offset: 0,
            },
            ProbeStage::Done { .. } => ProbeAccess { start: 0, len: 0, offset: 0 },
        }
    }

    /// What to do in this state.
    pub open spec fn action(self) -> ProbeAction {
        match self.stage {
            ProbeStage::Done { req_align, mem_align } => ProbeAction::Done(
                Alignments { req_align, mem_align },
            ),
            _ => if self.writing {
                ProbeAction::Write(self.access())
            } else {
                ProbeAction::Read(self.access())
            },
        }
    }

    /// The stage that follows when the current access went like this.
    pub open spec fn stage_after(self, outcome: AccessOutcome) -> ProbeStage {
        match self.stage {
            ProbeStage::Request { align } => match outcome {
                AccessOutcome::Aligned => ProbeStage::Memory {
                    req_align: align,
                    align: self.min_mem_align,
                },
                AccessOutcome::Misaligned if align < MAX_REQ_ALIGN => ProbeStage::Request {
                    align: next_candidate(
                        self.min_req_align as int,
                        FIRST_REQ_ALIGN as int,
                        align as int,
                    ) as usize,
                },
                _ => ProbeStage::Memory {
                    req_align: crate::align::max_int(align as int, SAFE_REQ_ALIGN as int) as usize,
                    align: self.min_mem_align,
                },
            },
            ProbeStage::Memory { req_align, align } => match outcome {
                AccessOutcome::Aligned => ProbeStage::Done { req_align, mem_align: align },
                AccessOutcome::Misaligned if align < max_mem_align(
                    self.page_size as int,
                ) => ProbeStage::Memory {
                    req_align,
                    align: next_candidate(
                        self.min_mem_align as int,
                        crate::align::min_int(self.page_size as int, FIRST_MEM_ALIGN as int),
                        align as int,
                    ) as usize,
                },
                _ => ProbeStage::Done {
                    req_align,
                    mem_align: crate::align::max_int(
                        align as int,
                        safe_mem_align(self.page_size as int),
                    ) as usize,
                },
            },
            ProbeStage::Done { .. } => self.stage,
        }
    }

    /// How the current access went, if that is known once what [`Self::action`] names has been
    /// done, and `result` is how many bytes were read or written, or the way in which that failed.
    pub open spec fn outcome(self, result: Result<u64, IoFailure>) -> Option<AccessOutcome> {
        if self.stage is Done {
            None
        } else if self.writing {
            Some(outcome_after_write(result))
        } else {
            match step_after_read(result, self.access().len, self.writable) {
                AccessStep::WriteBack => None,
                AccessStep::Finished(outcome) => Some(outcome),
            }
        }
    }

    /// The state that follows then.
    pub open spec fn next(self, result: Result<u64, IoFailure>) -> Self {
        if self.stage is Done {
            self
        } else {
            match self.outcome(result) {
                None => ProbeState { writing: true, ..self },
                Some(outcome) => ProbeState {
                    writable: self.writable && !(self.writing && shows_read_only(result)),
                    writing: false,
                    stage: self.stage_after(outcome),
                    ..self
                },
            }
        }
    }
}

/// The stage that follows a valid state is possible, whatever the access came to.
proof fn lemma_stage_after_possible(s: ProbeState, outcome: AccessOutcome)
    requires
        s.valid(),
        !(s.stage is Done),
    ensures
        (ProbeState { stage: s.stage_after(outcome), writing: false, ..s }).valid(),
{
    let max = max_mem_align(s.page_size as int);
    crate::align::lemma_pow2_constants();
    crate::align::lemma_pow2_double(s.min_req_align as int);
    crate::align::lemma_pow2_double(s.min_mem_align as int);
    match s.stage {
        ProbeStage::Request { align } => {
            crate::align::lemma_pow2_double(align as int);
            if align < MAX_REQ_ALIGN {
                crate::align::lemma_pow2_gap(align as int, MAX_REQ_ALIGN as int);
            }
        },
        ProbeStage::Memory { align, .. } => {
            crate::align::lemma_pow2_double(align as int);
            if align < max {
                crate::align::lemma_pow2_gap(align as int, max);
            }
        },
        ProbeStage::Done { .. } => {},
    }
}

/// Whatever the accesses come to, a valid state is followed by a valid state.
pub proof fn law_probe_stays_valid(s: ProbeState, result: Result<u64, IoFailure>)
    requires
        s.valid(),
    ensures
        s.next(result).valid(),
{
    if !(s.stage is Done) {
        if let Some(outcome) = s.outcome(result) {
            lemma_stage_after_possible(s, outcome);
        }
    }
}

/// The size that the test buffer must have on a system of this page size, and what its address must
/// be a multiple of.
pub fn test_buffer_size(page_size: usize) -> (r: usize)
    ensures
        r == max_mem_align(page_size as int),
{
    if page_size >= MAX_REQ_ALIGN {
        page_size
    } else {
        MAX_REQ_ALIGN
    }
}

/// The alignments to assume on a system of this page size where there is no memory for a test
/// buffer, whatever alignments a probe would have started at.
pub fn safe_alignments(page_size: usize) -> (r: Alignments)
    requires
        is_pow2(page_size as int),
    ensures
        r.req_align == SAFE_REQ_ALIGN,
        r.mem_align == safe_mem_align(page_size as int),
        r.valid(),
{
    proof {
        crate::align::lemma_pow2_constants();
    }
    Alignments {
        req_align: SAFE_REQ_ALIGN,
        mem_align: if page_size >= SAFE_REQ_ALIGN {
            page_size
        } else {
            SAFE_REQ_ALIGN
        },
    }
}

/// Looks for the smallest request and memory alignments that a file accepts.
pub struct Probe {
    state: ProbeState,
}

impl View for Probe {
    type V = ProbeState;

    closed spec fn view(&self) -> ProbeState {
        self.state
    }
}

impl Probe {
    #[verifier::type_invariant]
    spec fn well_formed(self) -> bool {
        self.state.valid()
    }

    /// Starts a probe at `min_req_align` and `min_mem_align` on a system of this page size.
    ///
    /// Returns `None` where these are not powers of two, or where the minima are above anything
    /// that can be tried.
    pub fn new(page_size: usize, min_req_align: usize, min_mem_align: usize) -> (r: Option<Self>)
        ensures
            r is Some <==> can_probe(
                page_size as int,
                min_req_align as int,
                min_mem_align as int,
            ),
            r matches Some(p) ==> p@ == ProbeState::start(page_size, min_req_align, min_mem_align),
    {
        if !is_power_of_two(page_size) || !is_power_of_two(min_req_align) || !is_power_of_two(
            min_mem_align,
        ) {
            return None;
        }
        let max = test_buffer_size(page_size);
        if min_req_align > max || min_mem_align > max {
            return None;
        }
        Some(
            Probe {
                state: ProbeState {
                    page_size,
                    min_req_align,
                    min_mem_align,
                    writable: true,
                    writing: false,
                    stage: ProbeStage::Request { align: min_req_align },
                },
            },
        )
    }

    /// Starts a probe at `min_req_align` and `min_mem_align` on this system.
    ///
    /// Returns `None` as [`Self::new`] does.
    pub fn on_system(min_req_align: usize, min_mem_align: usize) -> (r: Option<Self>)
        ensures
            is_pow2(min_req_align as int) && is_pow2(min_mem_align as int) && min_req_align
                <= MAX_REQ_ALIGN && min_mem_align <= MAX_REQ_ALIGN ==> r is Some,
            !is_pow2(min_req_align as int) || !is_pow2(min_mem_align as int) ==> r is None,
            r matches Some(p) ==> {
                &&& p@ == ProbeState::start(p@.page_size, min_req_align, min_mem_align)
                &&& can_probe(p@.page_size as int, min_req_align as int, min_mem_align as int)
            },
    {
        Probe::new(system_page_size(), min_req_align, min_mem_align)
    }

    /// The size that the test buffer must have, and what its address must be a multiple of.
    pub fn buffer_size(&self) -> (r: usize)
        ensures
            r == max_mem_align(self@.page_size as int),
    {
        test_buffer_size(self.state.page_size)
    }

    /// The alignments to assume in case something goes wrong, unless larger ones have been refused
    /// already.
    pub fn fallback(&self) -> (r: Alignments)
        ensures
            r.req_align == SAFE_REQ_ALIGN,
            r.mem_align == safe_mem_align(self@.page_size as int),
            r.valid(),
    {
        proof {
            use_type_invariant(self);
        }
        safe_alignments(self.state.page_size)
    }

    /// What to do next.
    ///
    /// The access lies within the test buffer, and the alignments that are settled on in the end
    /// are powers of two that are not below the minima.
    pub fn action(&self) -> (r: ProbeAction)
        ensures
            r == self@.action(),
            match r {
                ProbeAction::Read(a) => a.start + a.len <= max_mem_align(self@.page_size as int),
                ProbeAction::Write(a) => a.start + a.len <= max_mem_align(self@.page_size as int),
                ProbeAction::Done(a) => {
                    &&& a.valid()
                    &&& self@.min_req_align <= a.req_align
                    &&& self@.min_mem_align <= a.mem_align
                },
            },
    {
        proof {
            use_type_invariant(self);
        }
        let access = match self.state.stage {
            ProbeStage::Request { align } => ProbeAccess { start: 0, len: align, offset: align },
            ProbeStage::Memory { align, .. } => ProbeAccess {
                start: self.buffer_size() - align,
                len: align,
                offset: 0,
            },
            ProbeStage::Done { req_align, mem_align } => {
                return ProbeAction::Done(Alignments { req_align, mem_align });
            },
        };
        if self.state.writing {
            ProbeAction::Write(access)
        } else {
            ProbeAction::Read(access)
        }
    }

    /// The stage that the probe is at.
    pub fn stage(&self) -> (r: ProbeStage)
        ensures
            r == self@.stage,
    {
        self.state.stage
    }

    /// Takes note of how the access went that [`Self::action`] named: how many bytes were read or
    /// written, or how it failed.
    ///
    /// Returns what that shows of the alignment that is being tested, if it shows it already.
    pub fn advance(&mut self, result: Result<u64, IoFailure>) -> (r: Option<AccessOutcome>)
        ensures
            r == old(self)@.outcome(result),
            final(self)@ == old(self)@.next(result),
    {
        proof {
            use_type_invariant(&*self);
            law_probe_stays_valid(self.state, result);
        }
        let mut state: ProbeState = self.state;
        let len = match state.stage {
            ProbeStage::Request { align } => align,
            ProbeStage::Memory { align, .. } => align,
            ProbeStage::Done { .. } => {
                return None;
            },
        };
        let outcome = if state.writing {
            after_write(result, &mut state.writable)
        } else {
            match after_read(result, len, state.writable) {
                AccessStep::WriteBack => {
                    state.writing = true;
                    self.state = state;
                    return None;
                },
                AccessStep::Finished(outcome) => outcome,
            }
        };
        state.writing = false;
        state.stage = self.stage_after(outcome);
        self.state = state;
        Some(outcome)
    }

    fn stage_after(&self, outcome: AccessOutcome) -> (r: ProbeStage)
        ensures
            r == self@.stage_after(outcome),
    {
        proof {
            use_type_invariant(self);
            if !(self.state.stage is Done) {
                lemma_stage_after_possible(self.state, outcome);
            }
        }
        match self.state.stage {
            ProbeStage::Request { align } => self.after_request(align, outcome),
            ProbeStage::Memory { req_align, align } => self.after_memory(req_align, align, outcome),
            ProbeStage::Done { .. } => self.state.stage,
        }
    }

    fn after_request(&self, align: usize, outcome: AccessOutcome) -> (r: ProbeStage)
        requires
            self@.stage == (ProbeStage::Request { align }),
        ensures
            r == self@.stage_after(outcome),
    {
        proof {
            use_type_invariant(self);
        }
        let min = self.state.min_req_align;
        let found = match outcome {
            AccessOutcome::Aligned => align,
            AccessOutcome::Misaligned if align < MAX_REQ_ALIGN => {
                let doubled: usize = align * 2;
                let next = if align == min && doubled < FIRST_REQ_ALIGN {
                    FIRST_REQ_ALIGN
                } else {
                    doubled
                };
                return ProbeStage::Request { align: next };
            },
            _ => if align >= SAFE_REQ_ALIGN {
                align
            } else {
                SAFE_REQ_ALIGN
            },
        };
        ProbeStage::Memory { req_align: found, align: self.state.min_mem_align }
    }

    fn after_memory(&self, req_align: usize, align: usize, outcome: AccessOutcome) -> (r:
        ProbeStage)
        requires
            self@.stage == (ProbeStage::Memory { req_align, align }),
        ensures
            r == self@.stage_after(outcome),
    {
        proof {
            use_type_invariant(self);
            if align < max_mem_align(self.state.page_size as int) {
                crate::align::lemma_pow2_constants();
                crate::align::lemma_pow2_gap(
                    align as int,
                    max_mem_align(self.state.page_size as int),
                );
            }
        }
        let min = self.state.min_mem_align;
        let page_size = self.state.page_size;
        let found = match outcome {
            AccessOutcome::Aligned => align,
            AccessOutcome::Misaligned if align < self.buffer_size() => {
                let first = if page_size <= FIRST_MEM_ALIGN {
                    page_size
                } else {
                    FIRST_MEM_ALIGN
                };
                let doubled: usize = align * 2;
                let next = if align == min && doubled < first {
                    first
                } else {
                    doubled
                };
                return ProbeStage::Memory { req_align, align: next };
            },
            _ => {
                let safe = self.fallback().mem_align;
                if align >= safe {
                    align
                } else {
                    safe
                }
            },
        };
        ProbeStage::Done { req_align, mem_align: found }
    }
}

} // verus!
