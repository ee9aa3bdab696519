use injectorpp::nearalloc::{branch_reach, page_start, Arch, NearScan};

#[test]
fn branch_reach_per_instruction_set() {
    assert_eq!(branch_reach(Arch::X64), Some(0x80000000));
    assert_eq!(branch_reach(Arch::A64), Some(0x8000000));
    assert_eq!(branch_reach(Arch::Other), None);
}

#[test]
fn scan_starts_at_reach_below_source_saturating() {
    let s = NearScan::new(0x700000000000, 0x8000000, 0x1000);
    assert_eq!(s.next_hint, 0x6ffff8000000);
    // A source address below the reach saturates at zero.
    let s = NearScan::new(0x10000, 0x8000000, 0x1000);
    assert_eq!(s.next_hint, 0);
    assert!(!s.exhausted());
}

#[test]
fn scan_steps_one_page_per_failed_attempt() {
    let mut s = NearScan::new(0x700000000000, 0x8000000, 0x1000);
    let keep = s.offer(None);
    assert!(!keep);
    assert_eq!(s.next_hint, 0x6ffff8001000);
}

#[test]
fn scan_releases_allocation_outside_reach() {
    let mut s = NearScan::new(0x700000000000, 0x8000000, 0x1000);
    // The operating system ignored the hint and placed the block far away.
    let keep = s.offer(Some(0x100000000));
    assert!(!keep);
    assert_eq!(s.next_hint, 0x6ffff8001000);
}

#[test]
fn scan_keeps_allocation_within_reach() {
    let mut s = NearScan::new(0x700000000000, 0x8000000, 0x1000);
    let hint = s.next_hint;
    // Exactly at the far edge of the window still counts as in reach.
    let keep = s.offer(Some(0x700000000000 + 0x8000000));
    assert!(keep);
    assert_eq!(s.next_hint, hint);
    let keep = s.offer(Some(0x700000000000 - 0x8000000));
    assert!(keep);
}

#[test]
fn scan_exhausts_after_the_window() {
    let mut s = NearScan::new(10, 0, 4);
    assert!(!s.exhausted());
    let keep = s.offer(Some(100));
    assert!(!keep);
    assert!(s.exhausted());
}

#[test]
fn page_start_rounds_down_to_page_boundary() {
    assert_eq!(page_start(0x12345, 0x1000), 0x12000);
    assert_eq!(page_start(0xfff, 0x1000), 0);
    assert_eq!(page_start(0x1000, 0x1000), 0x1000);
    assert_eq!(page_start(0x1001, 0x1000), 0x1000);
    assert_eq!(page_start(0x7fffdeadbeef, 0x4000), 0x7fffdead8000);
}
