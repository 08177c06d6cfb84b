use rcpu_os::boot::{picker_row, ram_region_end, select_key, stack_words, MemoryRegion};
use rcpu_os::keyboard::{KeyEvent, RawKeyCode};

fn area(start: u64, end: u64, available: bool) -> MemoryRegion {
    MemoryRegion { start, end, available }
}

#[test]
fn ram_region_is_the_area_that_holds_the_start() {
    let areas = vec![
        area(0, 0x9fc00, true),
        area(0x100000, 0x7fe0000, false),
        area(0x100000, 0x7fe0000, true),
    ];
    assert_eq!(ram_region_end(&areas, 0x120000), Some(0x7fe0000));
    assert_eq!(ram_region_end(&areas, 0x1000), Some(0x9fc00));
}

#[test]
fn ram_region_missing_or_small_fails() {
    let areas = vec![area(0, 0x9fc00, true), area(0x100000, 0x110000, true)];
    assert_eq!(ram_region_end(&areas, 0xa0000), None);
    assert_eq!(ram_region_end(&areas, 0x108000), None);
    assert_eq!(ram_region_end(&[], 0x1000), None);
}

#[test]
fn stack_words_fill_the_rest_of_the_region() {
    assert_eq!(stack_words(0x100000, 0x110000 + 200), 100);
    assert_eq!(stack_words(0x100000, 0x110000), 0);
    assert_eq!(stack_words(0x100000, 0x7fe0000), 0xffff);
}

#[test]
fn picker_moves_and_confirms() {
    let up = KeyEvent::RawKey(RawKeyCode::ArrowUp);
    let down = KeyEvent::RawKey(RawKeyCode::ArrowDown);
    assert_eq!(select_key(0, 3, up), (0, false));
    assert_eq!(select_key(0, 3, down), (1, false));
    assert_eq!(select_key(2, 3, down), (2, false));
    assert_eq!(select_key(2, 3, up), (1, false));
    assert_eq!(select_key(1, 3, KeyEvent::Unicode('\n')), (1, true));
    assert_eq!(select_key(1, 3, KeyEvent::Unicode('x')), (1, false));
    assert_eq!(select_key(1, 3, KeyEvent::RawKey(RawKeyCode::F1)), (1, false));
    assert_eq!(picker_row(3, 0), 21);
    assert_eq!(picker_row(3, 2), 23);
}
