use injectorpp::a64_patch::plan_replace_function;
use injectorpp::image::{copy_window, write_bytes_at};
use injectorpp::lifecycle::relocate_plan;

fn fresh_region() -> Vec<u8> {
    (0..64u8).collect()
}

#[test]
fn install_changes_only_the_patch_window() {
    let mut region = fresh_region();
    let before = region.clone();
    let window = copy_window(&region, 0, 12);
    let plan = plan_replace_function(0x1000, &window, 0x55667788, 0x2000).unwrap();
    write_bytes_at(&mut region, 0, &plan.patch_bytes);
    assert_eq!(&region[0..12], &plan.patch_bytes[..]);
    // A third function living elsewhere in the region is untouched.
    assert_eq!(&region[12..], &before[12..]);
}

#[test]
fn restore_is_exact_after_drop() {
    let mut region = fresh_region();
    let before = region.clone();
    let window = copy_window(&region, 0, 12);
    let plan = plan_replace_function(0x1000, &window, 0x55667788, 0x2000).unwrap();
    write_bytes_at(&mut region, 0, &plan.patch_bytes);
    assert_ne!(region, before);
    let restore = plan.restore_bytes();
    write_bytes_at(&mut region, 0, &restore);
    assert_eq!(region, before);
}

#[test]
fn moving_the_plan_preserves_the_installed_patch() {
    let mut region = fresh_region();
    let before = region.clone();
    let window = copy_window(&region, 0, 12);
    let plan = plan_replace_function(0x1000, &window, 0x55667788, 0x2000).unwrap();
    let installed = plan.patch_bytes.clone();
    write_bytes_at(&mut region, 0, &plan.patch_bytes);
    // Transfer ownership of the handle; the installed bytes must not move.
    let moved = relocate_plan(plan);
    assert_eq!(&region[0..12], &installed[..]);
    assert_eq!(moved.func_addr, 0x1000);
    assert_eq!(moved.patch_bytes, installed);
    // Only dropping restores: the moved handle still carries the snapshot.
    let restore = moved.restore_bytes();
    write_bytes_at(&mut region, 0, &restore);
    assert_eq!(region, before);
}

#[test]
fn repatch_after_restore_installs_identically() {
    let mut region = fresh_region();
    let window = copy_window(&region, 0, 12);
    let plan = plan_replace_function(0x1000, &window, 0x55667788, 0x2000).unwrap();
    let first_patch = plan.patch_bytes.clone();
    write_bytes_at(&mut region, 0, &plan.patch_bytes);
    let restore = plan.restore_bytes();
    write_bytes_at(&mut region, 0, &restore);
    // The window reads back as it did before the first patch, so a
    // second patch installs cleanly and identically.
    let window2 = copy_window(&region, 0, 12);
    assert_eq!(window2, window);
    let plan2 = plan_replace_function(0x1000, &window2, 0x55667788, 0x2000).unwrap();
    assert_eq!(plan2.patch_bytes, first_patch);
    assert_eq!(plan2.original_bytes, window);
}
