use imago_file::align::Alignments;
use imago_file::error::{FailureKind, IoFailure};
use imago_file::probe::{
    after_read, after_write, safe_alignments, test_buffer_size, AccessOutcome, AccessStep, Probe,
    ProbeAccess, ProbeAction, ProbeStage,
};

const EINVAL: IoFailure = IoFailure { kind: FailureKind::InvalidArgument, code: 22 };
const EBADF: IoFailure = IoFailure { kind: FailureKind::BadDescriptor, code: 9 };
const EIO: IoFailure = IoFailure { kind: FailureKind::Other, code: 5 };

/// Probe a file of this length that demands these alignments; return what is found, and the number
/// of writes that were tried.
fn probe_file(
    page_size: usize,
    min: (usize, usize),
    demand: (usize, usize),
    writable: bool,
    length: usize,
) -> (Alignments, usize) {
    let mut probe = Probe::new(page_size, min.0, min.1).unwrap();
    let accepts = |a: ProbeAccess| {
        a.start % demand.1 == 0 && a.len % demand.0 == 0 && a.offset % demand.0 == 0
    };
    let mut contents: Vec<u8> = (0..length).map(|i| (i % 251) as u8).collect();
    let before = contents.clone();
    let mut buffer = vec![0xaa; probe.buffer_size()];
    let mut writes = 0;
    for _ in 0..1000 {
        let result = match probe.action() {
            ProbeAction::Done(found) => {
                assert_eq!(contents, before);
                return (found, writes);
            }
            ProbeAction::Read(a) => {
                if accepts(a) {
                    let n = a.len.min(length.saturating_sub(a.offset));
                    for i in 0..n {
                        buffer[a.start + i] = contents[a.offset + i];
                    }
                    Ok(n as u64)
                } else {
                    Err(EINVAL)
                }
            }
            ProbeAction::Write(a) => {
                writes += 1;
                if !accepts(a) {
                    Err(EINVAL)
                } else if !writable {
                    Err(EBADF)
                } else {
                    for i in 0..a.len {
                        if contents.len() <= a.offset + i {
                            contents.resize(a.offset + i + 1, 0);
                        }
                        contents[a.offset + i] = buffer[a.start + i];
                    }
                    Ok(a.len as u64)
                }
            }
        };
        probe.advance(result);
    }
    panic!("probe does not end");
}

fn probe(
    page_size: usize,
    min: (usize, usize),
    demand: (usize, usize),
    writable: bool,
) -> (Alignments, usize) {
    probe_file(page_size, min, demand, writable, 300_000)
}

fn found(req_align: usize, mem_align: usize) -> Alignments {
    Alignments { req_align, mem_align }
}

#[test]
fn no_demands_are_found() {
    assert_eq!(probe(4096, (1, 1), (1, 1), true), (found(1, 1), 2));
}

#[test]
fn demands_are_found() {
    assert_eq!(probe(4096, (1, 1), (512, 512), true).0, found(512, 4096));
    assert_eq!(probe(4096, (1, 1), (2, 2), true).0, found(512, 4096));
    assert_eq!(probe(4096, (1, 1), (4096, 512), true).0, found(4096, 4096));
    assert_eq!(probe(4096, (1, 1), (4096, 16384), true).0, found(4096, 16384));
    assert_eq!(probe(4096, (1, 1), (65536, 1), true).0, found(65536, 65536));
    assert_eq!(probe(4096, (512, 1), (4096, 1), true).0, found(4096, 4096));
    assert_eq!(probe(4096, (4096, 512), (512, 512), true).0, found(4096, 512));
    assert_eq!(probe(512, (1, 1), (256, 256), true).0, found(512, 512));
    assert_eq!(probe(131072, (1, 1), (512, 131072), true).0, found(512, 131072));
}

#[test]
fn found_alignments_are_accepted() {
    let powers: Vec<usize> = (0..=16).map(|e| 1usize << e).collect();
    for &req in &powers {
        for &mem in &powers {
            for &min in &[1usize, 512, 4096] {
                let (found, _) = probe(4096, (min, 1), (req, mem), true);
                assert_eq!(found.req_align % req, 0);
                assert_eq!(found.mem_align % mem, 0);
                let expected = if req <= min { min } else { req.max(512) };
                assert_eq!(found.req_align, expected);
                let need = req.max(mem);
                assert_eq!(found.mem_align, if need <= 1 { 1 } else { need.max(4096) });
            }
        }
    }
}

#[test]
fn read_only_file_is_written_once_at_most() {
    let (read_only, writes) = probe(4096, (1, 1), (512, 512), false);
    assert_eq!(read_only, probe(4096, (1, 1), (512, 512), true).0);
    assert_eq!(writes, 1);
}

#[test]
fn probe_leaves_file_as_it_is() {
    for length in [0, 1, 2, 3, 511, 512, 1000, 1024, 4096, 8191, 8192, 65536, 131071, 131072] {
        for demand in [(1, 1), (512, 512), (4096, 512), (65536, 65536)] {
            let expected = probe(4096, (1, 1), demand, true).0;
            assert_eq!(probe_file(4096, (1, 1), demand, true, length).0, expected);
            assert_eq!(probe_file(4096, (1, 1), demand, false, length).0, expected);
        }
    }
}

#[test]
fn nothing_is_written_that_was_not_read() {
    // An empty file: nothing can be read, so nothing is written.
    assert_eq!(probe_file(4096, (1, 1), (1, 1), true, 0), (found(1, 1), 0));

    let mut probe = Probe::new(4096, 512, 1).unwrap();
    assert_eq!(probe.advance(Ok(511)), Some(AccessOutcome::Aligned));
    assert_eq!(
        probe.action(),
        ProbeAction::Read(ProbeAccess { start: 65535, len: 1, offset: 0 })
    );
}

#[test]
fn accesses_are_as_described() {
    let mut probe = Probe::new(4096, 1, 1).unwrap();
    assert_eq!(probe.buffer_size(), 65536);
    assert_eq!(probe.stage(), ProbeStage::Request { align: 1 });
    let access = ProbeAccess { start: 0, len: 1, offset: 1 };
    assert_eq!(probe.action(), ProbeAction::Read(access));
    assert_eq!(probe.advance(Ok(1)), None);
    assert_eq!(probe.action(), ProbeAction::Write(access));
    assert_eq!(probe.advance(Err(EINVAL)), Some(AccessOutcome::Misaligned));
    let access = ProbeAccess { start: 0, len: 512, offset: 512 };
    assert_eq!(probe.action(), ProbeAction::Read(access));
    assert_eq!(probe.advance(Ok(512)), None);
    assert_eq!(probe.action(), ProbeAction::Write(access));
    assert_eq!(probe.advance(Ok(512)), Some(AccessOutcome::Aligned));
    assert_eq!(probe.stage(), ProbeStage::Memory { req_align: 512, align: 1 });
    assert_eq!(
        probe.action(),
        ProbeAction::Read(ProbeAccess { start: 65535, len: 1, offset: 0 })
    );
    probe.advance(Err(EINVAL));
    assert_eq!(
        probe.action(),
        ProbeAction::Read(ProbeAccess { start: 61440, len: 4096, offset: 0 })
    );
    probe.advance(Ok(4096));
    probe.advance(Ok(4096));
    assert_eq!(probe.action(), ProbeAction::Done(found(512, 4096)));
    assert_eq!(probe.stage(), ProbeStage::Done { req_align: 512, mem_align: 4096 });
    assert_eq!(probe.advance(Err(EIO)), None);
    assert_eq!(probe.action(), ProbeAction::Done(found(512, 4096)));
}

#[test]
fn failing_file_gets_safe_alignments() {
    let mut probe = Probe::new(4096, 1, 1).unwrap();
    assert_eq!(probe.advance(Err(EIO)), Some(AccessOutcome::Failed(EIO)));
    assert_eq!(probe.advance(Err(EIO)), Some(AccessOutcome::Failed(EIO)));
    assert_eq!(probe.action(), ProbeAction::Done(found(4096, 4096)));

    let mut probe = Probe::new(16384, 8192, 32768).unwrap();
    assert_eq!(probe.advance(Err(EIO)), Some(AccessOutcome::Failed(EIO)));
    assert_eq!(probe.advance(Err(EIO)), Some(AccessOutcome::Failed(EIO)));
    assert_eq!(probe.action(), ProbeAction::Done(found(8192, 32768)));

    let mut probe = Probe::new(16384, 1, 1).unwrap();
    assert_eq!(probe.advance(Err(EBADF)), Some(AccessOutcome::Failed(EBADF)));
    assert_eq!(probe.advance(Ok(1)), None);
    assert_eq!(probe.advance(Err(EIO)), Some(AccessOutcome::Failed(EIO)));
    assert_eq!(probe.action(), ProbeAction::Done(found(4096, 16384)));
}

#[test]
fn file_that_accepts_nothing_gets_the_maximum() {
    let mut probe = Probe::new(4096, 1, 1).unwrap();
    let mut accesses = 0;
    while !matches!(probe.action(), ProbeAction::Done(_)) {
        probe.advance(Err(EINVAL));
        accesses += 1;
    }
    assert_eq!(probe.action(), ProbeAction::Done(found(65536, 65536)));
    // 1, 512, ..., 65536; then 1, 4096, ..., 65536
    assert_eq!(accesses, 9 + 6);
}

#[test]
fn probe_cannot_start_anywhere() {
    assert!(Probe::new(4096, 65536, 65536).is_some());
    assert!(Probe::new(4096, 131072, 1).is_none());
    assert!(Probe::new(4096, 1, 131072).is_none());
    assert!(Probe::new(131072, 131072, 131072).is_some());
    assert!(Probe::new(5000, 1, 1).is_none());
    assert!(Probe::new(4096, 3, 1).is_none());
    assert!(Probe::new(4096, 1, 0).is_none());
    assert!(Probe::on_system(3, 1).is_none());
}

#[test]
fn probe_on_system_uses_its_page_size() {
    let probe = Probe::on_system(512, 1).unwrap();
    assert_eq!(probe.buffer_size(), page_size::get().max(65536));
    assert_eq!(probe.fallback(), found(4096, page_size::get().max(4096)));
    assert_eq!(
        probe.action(),
        ProbeAction::Read(ProbeAccess { start: 0, len: 512, offset: 512 })
    );
}

#[test]
fn safe_alignments_need_no_probe() {
    // A probe cannot start at such a minimum, but where there is no memory for it, it need not.
    assert!(Probe::new(4096, 131072, 1).is_none());
    assert_eq!(safe_alignments(4096), found(4096, 4096));
    assert_eq!(safe_alignments(1), found(4096, 4096));
    assert_eq!(safe_alignments(16384), found(4096, 16384));
    assert_eq!(test_buffer_size(4096), 65536);
    assert_eq!(test_buffer_size(131072), 131072);
}

#[test]
fn fallback_depends_on_page_size() {
    assert_eq!(Probe::new(512, 1, 1).unwrap().fallback(), found(4096, 4096));
    assert_eq!(Probe::new(65536, 1, 1).unwrap().fallback(), found(4096, 65536));
}

#[test]
fn accesses_are_judged() {
    assert_eq!(after_read(Ok(512), 512, true), AccessStep::WriteBack);
    let finished = |outcome| AccessStep::Finished(outcome);
    assert_eq!(after_read(Ok(512), 512, false), finished(AccessOutcome::Aligned));
    assert_eq!(after_read(Ok(511), 512, true), finished(AccessOutcome::Aligned));
    assert_eq!(after_read(Ok(0), 1, true), finished(AccessOutcome::Aligned));
    assert_eq!(after_read(Err(EINVAL), 512, true), finished(AccessOutcome::Misaligned));
    assert_eq!(after_read(Err(EBADF), 512, true), finished(AccessOutcome::Failed(EBADF)));
    assert_eq!(after_read(Err(EIO), 512, false), finished(AccessOutcome::Failed(EIO)));

    let mut may_write = true;
    assert_eq!(after_write(Ok(512), &mut may_write), AccessOutcome::Aligned);
    assert_eq!(after_write(Err(EINVAL), &mut may_write), AccessOutcome::Misaligned);
    assert_eq!(after_write(Err(EIO), &mut may_write), AccessOutcome::Failed(EIO));
    assert!(may_write);
    assert_eq!(after_write(Err(EBADF), &mut may_write), AccessOutcome::Aligned);
    assert!(!may_write);
}
