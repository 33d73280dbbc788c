use imago_file::align::Alignments;
use imago_file::discard::{
    plan_punching, plan_punching_on_system, plan_truncate, plan_zeroing, DiscardPlan, TruncatePlan,
};
use imago_file::error::StorageError;
use imago_file::file::{File, StorageOpenOptions};
use imago_file::path::{base_directory, describe_quoted};
use std::path::PathBuf;

const MAX: u64 = i64::MAX as u64;

fn file(filename: Option<&str>, size: u64) -> File {
    let alignments = Alignments { req_align: 512, mem_align: 4096 };
    File::new(filename.map(PathBuf::from), size, alignments)
}

fn resolve(filename: Option<&str>, relative: &str) -> Result<PathBuf, StorageError> {
    file(filename, 0).resolve_relative_path(PathBuf::from(relative))
}

#[test]
fn file_knows_what_it_was_told() {
    let mut f = file(None, 1000);
    assert_eq!(f.req_align(), 512);
    assert_eq!(f.mem_align(), 4096);
    assert_eq!(f.size(), Ok(1000));
    f.extend_to(999);
    assert_eq!(f.size(), Ok(1000));
    f.extend_to(1001);
    assert_eq!(f.size(), Ok(1001));
}

#[test]
fn opening_needs_a_name() {
    let opts = StorageOpenOptions { filename: None, writable: true, direct: true };
    assert_eq!(File::do_open_sync(opts).err(), Some(StorageError::FilenameRequired));

    for (writable, direct) in [(false, false), (false, true), (true, false), (true, true)] {
        let opts = StorageOpenOptions { filename: Some("/a/b".into()), writable, direct };
        let plan = File::do_open_sync(opts).unwrap();
        assert_eq!(plan.filename, PathBuf::from("/a/b"));
        assert!(plan.read);
        assert_eq!(plan.write, writable);
        assert_eq!(plan.direct, direct);
    }
}

#[test]
fn paths_are_resolved() {
    assert_eq!(resolve(Some("/images/top.qcow2"), "base.raw"), Ok("/images/base.raw".into()));
    assert_eq!(resolve(Some("/images/top.qcow2"), "sub/base"), Ok("/images/sub/base".into()));
    assert_eq!(resolve(Some("images/top"), "../base"), Ok("images/../base".into()));
    assert_eq!(resolve(Some("top"), "base"), Ok("base".into()));
    assert_eq!(resolve(Some("/images/top"), "/other/base"), Ok("/other/base".into()));
    assert_eq!(resolve(None, "/other/base"), Ok("/other/base".into()));
    assert_eq!(resolve(Some("/"), "/other/base"), Ok("/other/base".into()));
}

#[test]
fn paths_are_not_resolved_without_directory() {
    assert_eq!(resolve(None, "base"), Err(StorageError::NoBaseFilename));
    assert_eq!(resolve(Some("/"), "base"), Err(StorageError::InvalidBaseFilename));
    assert_eq!(resolve(Some(""), "base"), Err(StorageError::InvalidBaseFilename));
}

#[test]
fn base_directory_is_chosen() {
    let dir = || Some(Some(PathBuf::from("/d")));
    assert_eq!(base_directory(true, dir()), Ok(None));
    assert_eq!(base_directory(true, None), Ok(None));
    assert_eq!(base_directory(true, Some(None)), Ok(None));
    assert_eq!(base_directory(false, dir()), Ok(Some("/d".into())));
    assert_eq!(base_directory(false, None), Err(StorageError::NoBaseFilename));
    assert_eq!(base_directory(false, Some(None)), Err(StorageError::InvalidBaseFilename));
}

#[test]
fn file_is_described() {
    assert_eq!(file(None, 0).display(), "file:<unknown path>");
    assert_eq!(file(Some("/images/a b"), 0).display(), "file:\"/images/a b\"");
    assert_eq!(file(Some("a\"b\n"), 0).display(), "file:\"a\\\"b\\n\"");
    assert_eq!(describe_quoted(Some("x".to_string())), "file:x");
    assert_eq!(describe_quoted(None), "file:<unknown path>");
}

#[test]
fn range_at_the_end_is_cut_off() {
    assert_eq!(plan_truncate(100, 100, 1), TruncatePlan::Nothing);
    assert_eq!(plan_truncate(100, 101, 0), TruncatePlan::Nothing);
    assert_eq!(plan_truncate(0, 0, 0), TruncatePlan::Nothing);
    assert_eq!(plan_truncate(100, 99, 1), TruncatePlan::SetLen(99));
    assert_eq!(plan_truncate(100, 0, 100), TruncatePlan::SetLen(0));
    assert_eq!(plan_truncate(100, 10, 500), TruncatePlan::SetLen(10));
    assert_eq!(plan_truncate(100, 10, u64::MAX), TruncatePlan::SetLen(10));
    assert_eq!(plan_truncate(100, 10, 89), TruncatePlan::NotAtEnd);
    assert_eq!(plan_truncate(100, 99, 0), TruncatePlan::NotAtEnd);
    assert_eq!(plan_truncate(u64::MAX, 1, u64::MAX), TruncatePlan::SetLen(1));

    let f = file(None, 100);
    assert_eq!(f.try_discard_by_truncate(10, 90), TruncatePlan::SetLen(10));
    assert_eq!(f.try_discard_by_truncate(10, 89), TruncatePlan::NotAtEnd);
}

#[test]
fn size_follows_truncation() {
    let mut f = file(Some("/a"), 1000);
    assert_eq!(f.try_discard_by_truncate(500, 500), TruncatePlan::SetLen(500));
    f.truncated(500);
    assert_eq!(f.size(), Ok(500));
    f.truncated(600);
    assert_eq!(f.size(), Ok(500));

    // What has been cut off is not brought back by discarding it.
    f.truncated(100);
    assert_eq!(f.try_discard_by_truncate(500, 500), TruncatePlan::Nothing);
    assert_eq!(f.pure_discard(500, 500), DiscardPlan::Nothing);
    assert_eq!(f.pure_write_zeroes(100, 500), DiscardPlan::Nothing);
    assert_eq!(f.size(), Ok(100));
    assert_eq!((f.req_align(), f.mem_align()), (512, 4096));
    assert_eq!(f.display(), "file:\"/a\"");
}

#[test]
fn large_files_are_discarded() {
    let gib = 1u64 << 30;
    assert_eq!(
        file(None, 8 * gib).pure_discard(4 * gib, gib),
        DiscardPlan::PunchHole { offset: 4 << 30, length: 1 << 30 }
    );
}

#[test]
fn range_before_the_end_is_deallocated() {
    let punch = |offset, length| DiscardPlan::PunchHole { offset, length };
    assert_eq!(plan_punching(100, 10, 20, i64::MAX), punch(10, 20));
    assert_eq!(plan_punching(100, 10, 90, i64::MAX), DiscardPlan::SetLen(10));
    assert_eq!(plan_punching(100, 200, 90, i64::MAX), DiscardPlan::Nothing);
    assert_eq!(plan_punching(100, 10, 20, 20), punch(10, 20));
    assert_eq!(plan_punching(100, 10, 20, 19), DiscardPlan::Skip);
    assert_eq!(plan_punching(100, 21, 20, 20), DiscardPlan::Skip);
    assert_eq!(plan_punching(u64::MAX, MAX, 1, i64::MAX), punch(i64::MAX, 1));
    assert_eq!(plan_punching(u64::MAX, MAX + 1, 1, i64::MAX), DiscardPlan::Skip);
    assert_eq!(plan_punching(u64::MAX, 1, MAX + 1, i64::MAX), DiscardPlan::Skip);

    let f = file(None, 100);
    assert_eq!(plan_punching_on_system(100, 10, 20), punch(10, 20));
    assert_eq!(f.pure_discard(10, 20), punch(10, 20));
    assert_eq!(f.pure_write_zeroes(10, 20), punch(10, 20));
    assert_eq!(f.pure_write_zeroes(10, 200), DiscardPlan::SetLen(10));
    let max = libc::off_t::MAX as u64;
    assert_eq!(plan_punching_on_system(u64::MAX, max + 1, 1), DiscardPlan::Skip);
}

#[test]
fn range_before_the_end_is_zeroed() {
    let zero = |offset, end| DiscardPlan::ZeroRange { offset, end };
    assert_eq!(plan_zeroing(100, 10, 20), zero(10, 31));
    assert_eq!(plan_zeroing(100, 10, 90), DiscardPlan::SetLen(10));
    assert_eq!(plan_zeroing(100, 100, 90), DiscardPlan::Nothing);
    assert_eq!(plan_zeroing(u64::MAX, MAX - 2, 1), zero(i64::MAX - 2, i64::MAX));
    assert_eq!(plan_zeroing(u64::MAX, MAX, MAX), zero(i64::MAX, i64::MAX));
    assert_eq!(plan_zeroing(u64::MAX, MAX + 1, 1), DiscardPlan::Skip);
    assert_eq!(plan_zeroing(u64::MAX, 1, MAX + 1), DiscardPlan::Skip);

    let f = file(None, 100);
    assert_eq!(f.pure_discard_by_zeroing(10, 20), zero(10, 31));
    assert_eq!(f.pure_write_zeroes_by_zeroing(10, 20), zero(10, 31));
}

#[test]
fn discarded_range_reads_as_zeroes() {
    let contents: Vec<u8> = (1..=50).collect();
    for offset in 0u64..60 {
        for length in 0u64..60 {
            let mut after = contents.clone();
            match file(None, 50).pure_discard(offset, length) {
                DiscardPlan::Nothing => {}
                DiscardPlan::SetLen(len) => after.resize(len as usize, 0),
                DiscardPlan::PunchHole { offset, length } => {
                    after[offset as usize..(offset + length) as usize].fill(0)
                }
                plan => panic!("{plan:?}"),
            }
            assert!(after.len() <= 50);
            for i in 0..120u64 {
                let before = contents.get(i as usize).copied().unwrap_or(0);
                let expected = if offset <= i && i < offset + length { 0 } else { before };
                assert_eq!(after.get(i as usize).copied().unwrap_or(0), expected);
            }
        }
    }
}

#[test]
fn resolving_twice_is_resolving_once() {
    let f = file(Some("/dir/base"), 0);
    for path in ["a", "b/../c", "/d", ""] {
        let once = f.resolve_relative_path(PathBuf::from(path)).unwrap();
        assert!(once.is_absolute());
        assert_eq!(f.resolve_relative_path(once.clone()), Ok(once));
    }
}

#[test]
fn writing_zeroes_is_discarding() {
    let f = file(None, 1000);
    for (offset, length) in [(0, 10), (500, 500), (500, 499), (1000, 1), (2000, u64::MAX)] {
        assert_eq!(f.pure_write_zeroes(offset, length), f.pure_discard(offset, length));
        assert_eq!(
            f.pure_write_zeroes_by_zeroing(offset, length),
            f.pure_discard_by_zeroing(offset, length)
        );
    }
    assert_eq!(f.pure_write_zeroes(1000, 1), DiscardPlan::Nothing);
}
