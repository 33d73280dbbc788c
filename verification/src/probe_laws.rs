//! What a probe comes to: that it ends, and what it finds.

use crate::align::Alignments;
use crate::error::{FailureKind, IoFailure};
use crate::probe::{
    AccessOutcome, AccessStep, ProbeAccess, ProbeAction, ProbeStage, ProbeState,
};
use vstd::arithmetic::power2::*;
use vstd::prelude::*;

verus! {

/// A bound on the number of accesses that a probe still makes.
pub open spec fn remaining_accesses(s: ProbeState) -> int {
    let max = crate::probe::max_mem_align(s.page_size as int);
    let to_write: int = if s.writing {
        0
    } else {
        1
    };
    match s.stage {
        ProbeStage::Request { align } => 4 + 2 * (max - align) + 2 * max + to_write,
        ProbeStage::Memory { align, .. } => 2 + 2 * (max - align) + to_write,
        ProbeStage::Done { .. } => 0,
    }
}

/// A probe comes to an end: with each access, however it goes, the bound on the number of the
/// accesses to come goes down.
pub proof fn law_probe_ends(s: ProbeState, result: Result<u64, IoFailure>)
    requires
        s.valid(),
        !(s.stage is Done),
    ensures
        0 <= remaining_accesses(s.next(result)) < remaining_accesses(s),
{
    crate::probe::law_probe_stays_valid(s, result);
    crate::align::lemma_pow2_constants();
    crate::align::lemma_pow2_double(s.min_req_align as int);
    crate::align::lemma_pow2_double(s.min_mem_align as int);
    let max = crate::probe::max_mem_align(s.page_size as int);
    match s.stage {
        ProbeStage::Request { align } => {
            crate::align::lemma_pow2_double(align as int);
            if align < crate::probe::MAX_REQ_ALIGN {
                crate::align::lemma_pow2_gap(align as int, crate::probe::MAX_REQ_ALIGN as int);
            }
        },
        ProbeStage::Memory { align, .. } => {
            crate::align::lemma_pow2_double(align as int);
            if align < max {
                crate::align::lemma_pow2_gap(align as int, max);
            }
        },
        ProbeStage::Done { .. } => {},
    }
}

/// The test buffer is as large as a page, and 65536 bytes at least; the memory alignment to fall back
/// to is a page, and 4096 bytes at least.  A probe can start at any powers of two that are not above
/// the size of the test buffer.
pub proof fn law_limits_follow_page_size(page_size: int, min_req_align: int, min_mem_align: int)
    ensures
        page_size <= 65536 ==> crate::probe::max_mem_align(page_size) == 65536,
        page_size >= 65536 ==> crate::probe::max_mem_align(page_size) == page_size,
        page_size <= 4096 ==> crate::probe::safe_mem_align(page_size) == 4096,
        page_size >= 4096 ==> crate::probe::safe_mem_align(page_size) == page_size,
        crate::probe::can_probe(page_size, min_req_align, min_mem_align) <==> {
            &&& is_pow2(page_size)
            &&& is_pow2(min_req_align)
            &&& is_pow2(min_mem_align)
            &&& min_req_align <= 65536 || min_req_align <= page_size
            &&& min_mem_align <= 65536 || min_mem_align <= page_size
        },
        crate::probe::SAFE_REQ_ALIGN == 4096,
{
}

/// A probe begins by reading as much as the minimal request alignment, from that offset on, and is
/// prepared to write that back.
pub proof fn law_probe_starts_with_minimum(
    page_size: usize,
    min_req_align: usize,
    min_mem_align: usize,
)
    ensures
        ({
            let s = ProbeState::start(page_size, min_req_align, min_mem_align);
            &&& s.page_size == page_size
            &&& s.min_req_align == min_req_align
            &&& s.min_mem_align == min_mem_align
            &&& s.writable
            &&& !s.writing
            &&& s.stage == (ProbeStage::Request { align: min_req_align })
            &&& s.action() == ProbeAction::Read(
                ProbeAccess { start: 0, len: min_req_align, offset: min_req_align },
            )
        }),
{
}

/// What a probe asks for: to test a request alignment, an access whose offset and length are the
/// candidate; to test a memory alignment, one at offset 0 whose data is the last piece of the test
/// buffer that is as long as the candidate.  It is the same access that reads and that writes back.
pub proof fn law_access_tests_candidate(s: ProbeState, a: ProbeAccess)
    requires
        s.valid(),
    ensures
        s.action() is Done <==> s.stage is Done,
        s.action() matches ProbeAction::Done(found) ==> s.stage == (ProbeStage::Done {
            req_align: found.req_align,
            mem_align: found.mem_align,
        }),
        !(s.stage is Done) ==> (s.action() is Write <==> s.writing),
        s.action() == ProbeAction::Read(a) || s.action() == ProbeAction::Write(a) ==> match s.stage {
            ProbeStage::Request { align } => a.start == 0 && a.len == align && a.offset == align,
            ProbeStage::Memory { align, .. } => {
                &&& a.offset == 0
                &&& a.len == align
                &&& a.start + a.len == 65536 || a.start + a.len == s.page_size
                &&& a.start + a.len >= 65536 && a.start + a.len >= s.page_size
            },
            ProbeStage::Done { .. } => false,
        },
{
}

/// How the answer to an access is judged.  Exactly a refusal as an invalid argument shows that the
/// access was misaligned, whatever the error number, and no matter whether it was the reading or the
/// writing that was refused.  Any other failure is handed on as it is, but that a file cannot be
/// written is no failure.  What was read completely is to be written back before anything is
/// known, unless the file cannot be written.
pub proof fn law_answer_is_judged(s: ProbeState, result: Result<u64, IoFailure>, f: IoFailure)
    requires
        s.valid(),
        !(s.stage is Done),
    ensures
        s.outcome(result) == Some(AccessOutcome::Misaligned) <==> (result matches Err(g) && g.kind
            is InvalidArgument),
        s.outcome(result) == Some(AccessOutcome::Failed(f)) <==> {
            &&& result == Err::<u64, IoFailure>(f)
            &&& !(f.kind is InvalidArgument)
            &&& !(s.writing && f.kind is BadDescriptor)
        },
        s.outcome(result) is None <==> {
            &&& !s.writing
            &&& s.writable
            &&& result matches Ok(n) && match s.stage {
                ProbeStage::Request { align } => n == align,
                ProbeStage::Memory { align, .. } => n == align,
                ProbeStage::Done { .. } => false,
            }
        },
        s.next(result).writing <==> s.outcome(result) is None,
        s.next(result).writable <==> s.writable && !(s.writing && (result matches Err(g) && g.kind
            is BadDescriptor)),
        s.outcome(result) is None ==> s.next(result).stage == s.stage,
        s.next(result).page_size == s.page_size,
        s.next(result).min_req_align == s.min_req_align,
        s.next(result).min_mem_align == s.min_mem_align,
{
}

/// The parts of an access are judged alike: a refusal as an invalid argument is misalignment in
/// both, and any other failure is handed on by both, but for one that shows that the file cannot be
/// written.
pub proof fn law_parts_are_judged_alike(f: IoFailure, n: u64, len: usize, may_write: bool)
    ensures
        crate::probe::step_after_read(Err(f), len, may_write) == AccessStep::Finished(
            AccessOutcome::Misaligned,
        ) <==> f.kind is InvalidArgument,
        crate::probe::outcome_after_write(Err(f)) is Misaligned <==> f.kind is InvalidArgument,
        !(f.kind is InvalidArgument) ==> crate::probe::step_after_read(Err(f), len, may_write)
            == AccessStep::Finished(AccessOutcome::Failed(f)),
        !(f.kind is InvalidArgument) && !(f.kind is BadDescriptor)
            ==> crate::probe::outcome_after_write(Err(f)) == AccessOutcome::Failed(f),
        f.kind is BadDescriptor ==> crate::probe::outcome_after_write(Err(f)) is Aligned,
        crate::probe::shows_read_only(Err(f)) <==> f.kind is BadDescriptor,
        crate::probe::step_after_read(Ok(n), len, may_write) is WriteBack <==> may_write && n == len,
        crate::probe::step_after_read(Ok(n), len, may_write) is WriteBack
            || crate::probe::step_after_read(Ok(n), len, may_write) == AccessStep::Finished(
            AccessOutcome::Aligned,
        ),
        crate::probe::outcome_after_write(Ok(n)) is Aligned,
        !crate::probe::shows_read_only(Ok(n)),
{
}

/// Where a probe goes from a request alignment that has been tested: if it was accepted, it is the
/// one; if it was refused, twice as much is tried next, but nothing between the minimum and 512, and
/// nothing above 65536.  Where the access failed, or there is nothing left to try, it is what was
/// tried, or 4096 if that is larger.  Then it is the turn of the minimal memory alignment.
pub proof fn law_request_alignment_is_looked_for(
    s: ProbeState,
    result: Result<u64, IoFailure>,
    align: usize,
)
    requires
        s.valid(),
        s.stage == (ProbeStage::Request { align }),
    ensures
        match (s.outcome(result), s.next(result).stage) {
            (None, next) => next == s.stage,
            (Some(AccessOutcome::Aligned), ProbeStage::Memory { req_align, align: memory }) => {
                &&& req_align == align
                &&& memory == s.min_mem_align
            },
            (Some(AccessOutcome::Misaligned), ProbeStage::Request { align: next }) => {
                &&& align < 65536
                &&& if align == s.min_req_align && 2 * align < 512 {
                    next == 512
                } else {
                    next == 2 * align
                }
            },
            (Some(AccessOutcome::Misaligned), ProbeStage::Memory { req_align, align: memory }) => {
                &&& align >= 65536
                &&& req_align == align
                &&& memory == s.min_mem_align
            },
            (Some(AccessOutcome::Failed(_)), ProbeStage::Memory { req_align, align: memory }) => {
                &&& req_align == align && align >= 4096 || req_align == 4096 && align < 4096
                &&& memory == s.min_mem_align
            },
            _ => false,
        },
{
}

/// Where a probe goes from a memory alignment that has been tested: as from a request alignment, but
/// that 512 is replaced by the smaller of the page size and 4096, 65536 by the size of the test
/// buffer, and 4096 by the larger of the page size and 4096.  The request alignment is kept, and
/// the probe is done.
pub proof fn law_memory_alignment_is_looked_for(
    s: ProbeState,
    result: Result<u64, IoFailure>,
    found: usize,
    align: usize,
)
    requires
        s.valid(),
        s.stage == (ProbeStage::Memory { req_align: found, align }),
    ensures
        match (s.outcome(result), s.next(result).stage) {
            (None, next) => next == s.stage,
            (Some(AccessOutcome::Aligned), ProbeStage::Done { req_align, mem_align }) => {
                &&& req_align == found
                &&& mem_align == align
            },
            (Some(AccessOutcome::Misaligned), ProbeStage::Memory { req_align, align: next }) => {
                &&& req_align == found
                &&& align < 65536 || align < s.page_size
                &&& if align == s.min_mem_align && 2 * align < 4096 && 2 * align < s.page_size {
                    &&& next == 4096 || next == s.page_size
                    &&& next <= 4096 && next <= s.page_size
                } else {
                    next == 2 * align
                }
            },
            (Some(AccessOutcome::Misaligned), ProbeStage::Done { req_align, mem_align }) => {
                &&& req_align == found
                &&& align >= 65536 && align >= s.page_size
                &&& mem_align == align
            },
            (Some(AccessOutcome::Failed(_)), ProbeStage::Done { req_align, mem_align }) => {
                &&& req_align == found
                &&& mem_align >= align && mem_align >= s.page_size && mem_align >= 4096
                &&& mem_align == align || mem_align == s.page_size || mem_align == 4096
            },
            _ => false,
        },
{
    let max = crate::probe::max_mem_align(s.page_size as int);
    crate::align::lemma_pow2_constants();
    if align < max {
        crate::align::lemma_pow2_gap(align as int, max);
    }
}

/// Once a probe is done, it remains so.
pub proof fn law_finished_probe_stays_finished(s: ProbeState, result: Result<u64, IoFailure>)
    requires
        s.stage is Done,
    ensures
        s.next(result) == s,
        s.outcome(result) is None,
{
}

/// Once a file has turned out to not be writable, no access to it is a write.
pub proof fn law_no_write_after_refusal(s: ProbeState, result: Result<u64, IoFailure>)
    requires
        s.valid(),
        !s.writable || (s.action() is Write && crate::probe::shows_read_only(result)),
    ensures
        !s.next(result).writable,
        !(s.next(result).action() is Write),
{
}

/// Where an access fails, or nothing that can be tried is accepted, a probe falls back to values
/// that are presumably safe: never below what has been refused, and never below 4096, or the page
/// size in case of the memory alignment.
pub proof fn law_failure_falls_back(s: ProbeState, outcome: AccessOutcome)
    requires
        s.valid(),
        match s.stage {
            ProbeStage::Request { align } => outcome is Failed || (outcome is Misaligned && align
                >= crate::probe::MAX_REQ_ALIGN),
            ProbeStage::Memory { align, .. } => outcome is Failed || (outcome is Misaligned && align
                >= crate::probe::max_mem_align(s.page_size as int)),
            ProbeStage::Done { .. } => false,
        },
    ensures
        match s.stage_after(outcome) {
            ProbeStage::Request { .. } => false,
            ProbeStage::Memory { req_align, align } => {
                &&& s.stage matches ProbeStage::Request { align: tried } && req_align
                    == crate::align::max_int(tried as int, 4096)
                &&& align == s.min_mem_align
            },
            ProbeStage::Done { req_align, mem_align } => {
                &&& s.stage matches ProbeStage::Memory { req_align: found, align: tried }
                    && req_align == found && mem_align == crate::align::max_int(
                    tried as int,
                    crate::align::max_int(s.page_size as int, 4096),
                )
            },
        },
{
}

/// A file that is being probed.
pub struct ProbedFile {
    /// The state of the probe.
    pub state: ProbeState,
    /// What the file holds.
    pub contents: Seq<u8>,
    /// What has been read last.
    pub data: Seq<u8>,
}

/// The file after what the probe asks for has been done, and `result` is how many bytes were read
/// or written, or the way in which that failed.
pub open spec fn probed_step(f: ProbedFile, result: Result<u64, IoFailure>) -> ProbedFile {
    let state = f.state.next(result);
    match (f.state.action(), result) {
        (ProbeAction::Read(a), Ok(n)) => ProbedFile {
            state,
            data: crate::contents::read_back(f.contents, a.offset as int, n as nat),
            ..f
        },
        (ProbeAction::Write(a), Ok(n)) => ProbedFile {
            state,
            contents: crate::contents::written(f.contents, a.offset as int, f.data.take(n as int)),
            ..f
        },
        _ => ProbedFile { state, ..f },
    }
}

/// The file after it has given these answers.
pub open spec fn probed_run(start: ProbedFile, results: Seq<Result<u64, IoFailure>>) -> ProbedFile
    decreases results.len(),
{
    if results.len() == 0 {
        start
    } else {
        probed_step(probed_run(start, results.drop_last()), results.last())
    }
}

/// The answer is one that the file can give: no more is read than was asked for and than there is,
/// and no more is written than was asked for.
pub open spec fn faithful_answer(f: ProbedFile, result: Result<u64, IoFailure>) -> bool {
    match (f.state.action(), result) {
        (ProbeAction::Read(a), Ok(n)) => n <= available(
            f.contents.len(),
            a.offset as nat,
            a.len as nat,
        ),
        (ProbeAction::Write(a), Ok(n)) => n <= a.len,
        _ => true,
    }
}

/// All of the answers are such.
pub open spec fn faithful_answers(start: ProbedFile, results: Seq<Result<u64, IoFailure>>) -> bool
    decreases results.len(),
{
    results.len() == 0 || {
        &&& faithful_answers(start, results.drop_last())
        &&& faithful_answer(probed_run(start, results.drop_last()), results.last())
    }
}

/// A probe leaves a file as it is, whatever the accesses come to: what is written is what the file
/// holds.  So the length of the file, too, is after the probe what it was before.
pub proof fn law_probe_leaves_contents(
    page_size: usize,
    min_req_align: usize,
    min_mem_align: usize,
    start: ProbedFile,
    results: Seq<Result<u64, IoFailure>>,
)
    requires
        start.state == ProbeState::start(page_size, min_req_align, min_mem_align),
        faithful_answers(start, results),
    ensures
        probed_run(start, results).contents == start.contents,
{
    lemma_only_read_data_is_written(start, results);
}

proof fn lemma_only_read_data_is_written(
    start: ProbedFile,
    results: Seq<Result<u64, IoFailure>>,
)
    requires
        !start.state.writing,
        faithful_answers(start, results),
    ensures
        ({
            let f = probed_run(start, results);
            let a = f.state.access();
            &&& f.contents == start.contents
            &&& f.state.writing ==> {
                &&& !(f.state.stage is Done)
                &&& a.len == 0 || a.offset + a.len <= f.contents.len()
                &&& f.data == crate::contents::read_back(
                    f.contents,
                    a.offset as int,
                    a.len as nat,
                )
            }
        }),
    decreases results.len(),
{
    if results.len() > 0 {
        let f = probed_run(start, results.drop_last());
        lemma_only_read_data_is_written(start, results.drop_last());
        if let (ProbeAction::Write(a), Ok(n)) = (f.state.action(), results.last()) {
            assert(crate::contents::written(f.contents, a.offset as int, f.data.take(n as int))
                =~= f.contents);
        }
    }
}

/// A file that accepts exactly those requests that are aligned as it demands.
pub struct AlignedDevice {
    /// Offset and length of a request must be multiples of this.
    pub req_align: int,
    /// The address of the buffer of a request must be a multiple of this.
    pub mem_align: int,
    /// The file can be written.
    pub writable: bool,
    /// The length of the file.
    pub length: nat,
    /// The error number by which requests are refused that are not aligned as demanded.
    pub refusal_code: i32,
    /// The error number by which writes are refused if the file cannot be written.
    pub read_only_code: i32,
}

/// How much of `len` bytes from `offset` on there is in a file of this length.
pub open spec fn available(length: nat, offset: nat, len: nat) -> nat {
    if offset >= length {
        0
    } else {
        crate::align::min_int(len as int, length - offset) as nat
    }
}

impl AlignedDevice {
    /// The demands are powers of two, within what is tried on a system of this page size.
    pub open spec fn valid(self, page_size: int) -> bool {
        &&& is_pow2(self.req_align)
        &&& is_pow2(self.mem_align)
        &&& self.req_align <= crate::probe::MAX_REQ_ALIGN
        &&& self.mem_align <= crate::probe::max_mem_align(page_size)
    }

    /// Whether a request is accepted, `address` being that of its buffer.
    pub open spec fn accepts(self, address: int, len: int, offset: int) -> bool {
        &&& address % self.mem_align == 0
        &&& len % self.req_align == 0
        &&& offset % self.req_align == 0
    }

    /// How the file answers in this state of a probe whose test buffer is at the address `base`.
    pub open spec fn answer(self, base: int, s: ProbeState) -> Result<u64, IoFailure> {
        let a = s.access();
        if !self.accepts(base + a.start, a.len as int, a.offset as int) {
            Err(IoFailure { kind: FailureKind::InvalidArgument, code: self.refusal_code })
        } else if s.writing {
            if self.writable {
                Ok(a.len as u64)
            } else {
                Err(IoFailure { kind: FailureKind::BadDescriptor, code: self.read_only_code })
            }
        } else {
            Ok(available(self.length, a.offset as nat, a.len as nat) as u64)
        }
    }
}

/// Where a probe of this file ends.
pub open spec fn probed(s: ProbeState, device: AlignedDevice, base: int) -> ProbeState
    decreases remaining_accesses(s),
    when s.valid()
    via probed_ends
{
    if s.stage is Done {
        s
    } else {
        probed(s.next(device.answer(base, s)), device, base)
    }
}

#[via_fn]
proof fn probed_ends(s: ProbeState, device: AlignedDevice, base: int) {
    if !(s.stage is Done) {
        law_probe_ends(s, device.answer(base, s));
        crate::probe::law_probe_stays_valid(s, device.answer(base, s));
    }
}

/// The first candidate that is not below `need`.
pub open spec fn first_sufficient(min: int, first: int, need: int) -> int {
    if need <= min {
        min
    } else {
        crate::align::max_int(first, need)
    }
}

/// The test buffer is at an address that is a multiple of its size, which is a multiple of the
/// alignment that the file demands; so in the buffer, only the start of the data matters.
proof fn lemma_address(device: AlignedDevice, base: int, s: ProbeState, start: int)
    requires
        s.valid(),
        device.valid(s.page_size as int),
        base % crate::probe::max_mem_align(s.page_size as int) == 0,
    ensures
        (base + start) % device.mem_align == start % device.mem_align,
{
    let max = crate::probe::max_mem_align(s.page_size as int);
    let m = device.mem_align;
    crate::align::lemma_pow2_constants();
    crate::align::lemma_pow2_double(m);
    crate::align::lemma_pow2_double(max);
    crate::align::lemma_pow2_divides(m, max);
    vstd::arithmetic::div_mod::lemma_fundamental_div_mod(base, max);
    vstd::arithmetic::div_mod::lemma_fundamental_div_mod(max, m);
    let k = (base / max) * (max / m);
    assert(base == m * k) by (nonlinear_arith)
        requires
            base == max * (base / max),
            max == m * (max / m),
            k == (base / max) * (max / m),
    ;
    vstd::arithmetic::div_mod::lemma_mod_multiples_vanish(k, start, m);
}

/// A file accepts an access of a probe exactly if the candidate is large enough.
proof fn lemma_accepted(device: AlignedDevice, base: int, s: ProbeState)
    requires
        s.valid(),
        device.valid(s.page_size as int),
        base % crate::probe::max_mem_align(s.page_size as int) == 0,
    ensures
        ({
            let a = s.access();
            let ok = device.accepts(base + a.start, a.len as int, a.offset as int);
            match s.stage {
                ProbeStage::Request { align } => ok <==> device.req_align <= align,
                ProbeStage::Memory { align, .. } => ok <==> device.req_align <= align
                    && device.mem_align <= align,
                ProbeStage::Done { .. } => true,
            }
        }),
{
    let max = crate::probe::max_mem_align(s.page_size as int);
    let a = s.access();
    let m = device.mem_align;
    crate::align::lemma_pow2_constants();
    crate::align::lemma_pow2_double(m);
    crate::align::lemma_pow2_double(device.req_align);
    lemma_address(device, base, s, a.start as int);
    vstd::arithmetic::div_mod::lemma_small_mod(0, m as nat);
    vstd::arithmetic::div_mod::lemma_small_mod(0, device.req_align as nat);
    match s.stage {
        ProbeStage::Request { align } => {
            crate::align::lemma_pow2_divides(device.req_align, align as int);
        },
        ProbeStage::Memory { align, .. } => {
            crate::align::lemma_pow2_divides(device.req_align, align as int);
            crate::align::lemma_pow2_divides(m, align as int);
            crate::align::lemma_pow2_divides(m, max);
            crate::align::lemma_pow2_double(align as int);
            assert(a.start == max - align);
            assert((max - align) % m == 0 <==> m <= align) by {
                if m <= align {
                    vstd::arithmetic::div_mod::lemma_sub_mod_noop(max, align as int, m);
                } else {
                    vstd::arithmetic::div_mod::lemma_fundamental_div_mod(max, m);
                    assert(max - align == m * (max / m - 1) + (m - align)) by (nonlinear_arith)
                        requires
                            max == m * (max / m),
                    ;
                    vstd::arithmetic::div_mod::lemma_mod_multiples_vanish(
                        max / m - 1,
                        m - align,
                        m,
                    );
                    vstd::arithmetic::div_mod::lemma_small_mod((m - align) as nat, m as nat);
                }
            }
        },
        ProbeStage::Done { .. } => {},
    }
}

/// The memory alignment that a probe of this file comes to.  A request that tests a memory
/// alignment is as long as the candidate, so the length must be acceptable, too.
pub open spec fn expected_mem_align(s: ProbeState, device: AlignedDevice) -> int {
    first_sufficient(
        s.min_mem_align as int,
        crate::align::min_int(s.page_size as int, crate::probe::FIRST_MEM_ALIGN as int),
        crate::align::max_int(device.req_align, device.mem_align),
    )
}

/// The request alignment that a probe of this file comes to.
pub open spec fn expected_req_align(s: ProbeState, device: AlignedDevice) -> int {
    first_sufficient(
        s.min_req_align as int,
        crate::probe::FIRST_REQ_ALIGN as int,
        device.req_align,
    )
}

proof fn lemma_probed_memory(s: ProbeState, device: AlignedDevice, base: int)
    requires
        s.valid(),
        device.valid(s.page_size as int),
        base % crate::probe::max_mem_align(s.page_size as int) == 0,
        s.stage matches ProbeStage::Memory { align, .. } && {
            &&& align <= expected_mem_align(s, device)
            &&& align == s.min_mem_align || align >= crate::align::min_int(
                s.page_size as int,
                crate::probe::FIRST_MEM_ALIGN as int,
            )
        },
    ensures
        probed(s, device, base).stage == (ProbeStage::Done {
            req_align: s.stage->Memory_req_align,
            mem_align: expected_mem_align(s, device) as usize,
        }),
    decreases remaining_accesses(s),
{
    let answer = device.answer(base, s);
    let next = s.next(answer);
    let align = s.stage->Memory_align;
    let need = crate::align::max_int(device.req_align, device.mem_align);
    let max = crate::probe::max_mem_align(s.page_size as int);
    lemma_accepted(device, base, s);
    law_probe_ends(s, answer);
    crate::probe::law_probe_stays_valid(s, answer);
    crate::align::lemma_pow2_constants();
    if align < need {
        crate::align::lemma_pow2_gap(align as int, need);
        crate::align::lemma_pow2_gap(align as int, max);
    }
    if next.stage is Done {
        assert(probed(next, device, base) == next);
    } else {
        lemma_probed_memory(next, device, base);
    }
}

proof fn lemma_probed_request(s: ProbeState, device: AlignedDevice, base: int)
    requires
        s.valid(),
        device.valid(s.page_size as int),
        base % crate::probe::max_mem_align(s.page_size as int) == 0,
        s.stage matches ProbeStage::Request { align } && {
            &&& align <= expected_req_align(s, device)
            &&& align == s.min_req_align || align >= crate::probe::FIRST_REQ_ALIGN
        },
    ensures
        probed(s, device, base).stage == (ProbeStage::Done {
            req_align: expected_req_align(s, device) as usize,
            mem_align: expected_mem_align(s, device) as usize,
        }),
    decreases remaining_accesses(s),
{
    let answer = device.answer(base, s);
    let next = s.next(answer);
    let align = s.stage->Request_align;
    lemma_accepted(device, base, s);
    law_probe_ends(s, answer);
    crate::probe::law_probe_stays_valid(s, answer);
    crate::align::lemma_pow2_constants();
    if align < device.req_align {
        crate::align::lemma_pow2_gap(align as int, device.req_align);
    }
    if next.stage is Memory {
        lemma_probed_memory(next, device, base);
    } else {
        lemma_probed_request(next, device, base);
    }
}

/// A probe finds what a file demands.  Of the candidates, it settles on the first that the file
/// accepts: as request alignment, the minimum to start at if that is enough, and otherwise what
/// the file demands or 512, whichever is larger; as memory alignment likewise, with the page size
/// or 4096, whichever is smaller, in place of 512.  What it finds does not depend on whether the
/// file can be written, nor on its length, nor on the error numbers by which it refuses.
pub proof fn law_probe_finds_alignments(
    page_size: usize,
    min_req_align: usize,
    min_mem_align: usize,
    device: AlignedDevice,
    base: int,
)
    requires
        crate::probe::can_probe(page_size as int, min_req_align as int, min_mem_align as int),
        device.valid(page_size as int),
        base % crate::probe::max_mem_align(page_size as int) == 0,
    ensures
        ({
            let start = ProbeState::start(page_size, min_req_align, min_mem_align);
            probed(start, device, base).action() == ProbeAction::Done(
                Alignments {
                    req_align: first_sufficient(min_req_align as int, 512, device.req_align) as usize,
                    mem_align: first_sufficient(
                        min_mem_align as int,
                        crate::align::min_int(page_size as int, 4096),
                        crate::align::max_int(device.req_align, device.mem_align),
                    ) as usize,
                },
            )
        }),
{
    let start = ProbeState::start(page_size, min_req_align, min_mem_align);
    lemma_probed_request(start, device, base);
}

/// What a probe finds is enough: a file accepts every request that observes the alignments that a
/// probe of it has come to.
pub proof fn law_found_alignments_are_accepted(
    page_size: usize,
    min_req_align: usize,
    min_mem_align: usize,
    device: AlignedDevice,
    base: int,
    found: Alignments,
    address: int,
    len: int,
    offset: int,
)
    requires
        crate::probe::can_probe(page_size as int, min_req_align as int, min_mem_align as int),
        device.valid(page_size as int),
        base % crate::probe::max_mem_align(page_size as int) == 0,
        probed(
            ProbeState::start(page_size, min_req_align, min_mem_align),
            device,
            base,
        ).action() == ProbeAction::Done(found),
        address % (found.mem_align as int) == 0,
        len % (found.req_align as int) == 0,
        offset % (found.req_align as int) == 0,
    ensures
        device.accepts(address, len, offset),
{
    let start = ProbeState::start(page_size, min_req_align, min_mem_align);
    law_probe_finds_alignments(page_size, min_req_align, min_mem_align, device, base);
    crate::align::lemma_pow2_constants();
    lemma_multiple_of_multiple(device.mem_align, found.mem_align as int, address);
    lemma_multiple_of_multiple(device.req_align, found.req_align as int, len);
    lemma_multiple_of_multiple(device.req_align, found.req_align as int, offset);
}

proof fn lemma_multiple_of_multiple(d: int, n: int, x: int)
    requires
        is_pow2(d),
        is_pow2(n),
        d <= n,
        x % n == 0,
    ensures
        x % d == 0,
{
    crate::align::lemma_pow2_double(d);
    crate::align::lemma_pow2_double(n);
    crate::align::lemma_pow2_divides(d, n);
    vstd::arithmetic::div_mod::lemma_fundamental_div_mod(x, n);
    vstd::arithmetic::div_mod::lemma_fundamental_div_mod(n, d);
    let k = (x / n) * (n / d);
    assert(x == k * d) by (nonlinear_arith)
        requires
            x == n * (x / n),
            n == d * (n / d),
            k == (x / n) * (n / d),
    ;
    vstd::arithmetic::div_mod::lemma_mod_multiples_basic(k, d);
}

/// The buffer of an access that tests a memory alignment has an address that is a multiple of the
/// candidate, and not of anything larger that is still to be tried.
pub proof fn law_memory_test_is_sharp(s: ProbeState, base: int)
    requires
        s.valid(),
        base % crate::probe::max_mem_align(s.page_size as int) == 0,
        s.stage is Memory,
    ensures
        ({
            let align = s.stage->Memory_align as int;
            let address = base + s.access().start;
            &&& address % align == 0
            &&& forall|larger: int|
                #[trigger] is_pow2(larger) && align < larger <= crate::probe::max_mem_align(
                    s.page_size as int,
                ) ==> address % larger != 0
        }),
{
    let align = s.stage->Memory_align as int;
    crate::align::lemma_pow2_constants();
    let exact = AlignedDevice {
        req_align: 1,
        mem_align: align,
        writable: true,
        length: 0,
        refusal_code: 0,
        read_only_code: 0,
    };
    crate::align::lemma_pow2_double(align);
    lemma_accepted(exact, base, s);
    assert forall|larger: int|
        #[trigger] is_pow2(larger) && align < larger <= crate::probe::max_mem_align(
            s.page_size as int,
        ) implies (base + s.access().start) % larger != 0 by {
        let device = AlignedDevice { mem_align: larger, ..exact };
        lemma_accepted(device, base, s);
        assert(s.access().len % 1 == 0);
    }
}

} // verus!
