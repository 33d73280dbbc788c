use imago_file::align::{
    checked_next_power_of_two, is_power_of_two, system_page_size, usable_page_size, Alignments,
};
use imago_file::setup::{
    device_size, file_size_source, get_min_dio_mem_align, get_min_dio_req_align,
    get_min_dio_req_align_unsigned, is_direct_io, probe_start, unprobed_alignments, SizeSource,
};

#[test]
fn powers_of_two_are_recognized() {
    for n in 0usize..5000 {
        assert_eq!(is_power_of_two(n), n.is_power_of_two(), "{n}");
    }
    assert!(is_power_of_two(usize::MAX / 2 + 1));
    assert!(!is_power_of_two(usize::MAX));
}

#[test]
fn next_power_of_two_is_smallest() {
    for n in 0usize..5000 {
        assert_eq!(checked_next_power_of_two(n), n.checked_next_power_of_two(), "{n}");
    }
    let largest = usize::MAX / 2 + 1;
    assert_eq!(checked_next_power_of_two(largest), Some(largest));
    assert_eq!(checked_next_power_of_two(largest + 1), None);
    assert_eq!(checked_next_power_of_two(usize::MAX), None);
}

#[test]
fn page_size_is_made_usable() {
    assert_eq!(usable_page_size(4096), 4096);
    assert_eq!(usable_page_size(65536), 65536);
    // A power of two is taken as it is, even a small one.
    assert_eq!(usable_page_size(1), 1);
    assert_eq!(usable_page_size(512), 512);
    assert_eq!(usable_page_size(0), 4096);
    assert_eq!(usable_page_size(100), 4096);
    assert_eq!(usable_page_size(4097), 8192);
    assert_eq!(usable_page_size(12288), 16384);
    assert_eq!(usable_page_size(usize::MAX), 4096);
}

#[test]
fn page_size_comes_from_the_system() {
    assert!(page_size::get().is_power_of_two());
    assert_eq!(system_page_size(), page_size::get());
}

#[test]
fn size_of_devices_is_asked_for() {
    assert_eq!(file_size_source(false, false), SizeSource::Metadata);
    assert_eq!(file_size_source(true, false), SizeSource::Device);
    assert_eq!(file_size_source(false, true), SizeSource::Device);
    assert_eq!(device_size(512, 1000), 512_000);
    assert_eq!(device_size(u32::MAX, 1), u64::from(u32::MAX));
    assert_eq!(device_size(0, u64::MAX), 0);
}

#[test]
fn direct_io_is_detected() {
    let direct = 0x4000;
    assert!(is_direct_io(true, 0, direct));
    assert!(is_direct_io(true, -1, direct));
    assert!(is_direct_io(false, 0x4002, direct));
    assert!(!is_direct_io(false, 0x8002, direct));
    // Flags could not be determined
    assert!(!is_direct_io(false, -1, direct));
    assert!(!is_direct_io(false, 0, direct));
}

#[test]
fn reported_sector_size_is_checked() {
    assert_eq!(get_min_dio_req_align(None), 1);
    assert_eq!(get_min_dio_req_align(Some(512)), 512);
    assert_eq!(get_min_dio_req_align(Some(4096)), 4096);
    assert_eq!(get_min_dio_req_align(Some(0)), 1);
    assert_eq!(get_min_dio_req_align(Some(-512)), 1);
    assert_eq!(get_min_dio_req_align(Some(i32::MIN)), 1);
    assert_eq!(get_min_dio_req_align(Some(520)), 1);
    assert_eq!(get_min_dio_req_align_unsigned(None), 1);
    assert_eq!(get_min_dio_req_align_unsigned(Some(512)), 512);
    assert_eq!(get_min_dio_req_align_unsigned(Some(0)), 1);
    assert_eq!(get_min_dio_req_align_unsigned(Some(3)), 1);
    assert_eq!(get_min_dio_req_align_unsigned(Some(0x8000_0000)), 0x8000_0000);
    assert_eq!(get_min_dio_mem_align(), 1);
}

#[test]
fn probing_starts_at_minimum() {
    let none = Alignments { req_align: 1, mem_align: 1 };
    assert_eq!(probe_start(false, 512), none);
    assert_eq!(probe_start(true, 512), Alignments { req_align: 512, mem_align: 1 });
    assert_eq!(unprobed_alignments(none), Alignments { req_align: 4096, mem_align: 4096 });
    assert_eq!(
        unprobed_alignments(Alignments { req_align: 8192, mem_align: 16384 }),
        Alignments { req_align: 8192, mem_align: 16384 }
    );
}
