use vstd::prelude::*;

use crate::keyboard::{KeyEvent, RawKeyCode};
use crate::rcpu::MAX_STACK_WORDS;

verus! {

/// The bytes of guest RAM that precede the stack region.
pub const RAM_BYTES: u64 = 0x10000;

/// An area of physical memory from the boot loader's memory map.
#[derive(Clone, Copy, Debug, PartialEq, Eq, Structural)]
pub struct MemoryRegion {
    pub start: u64,
    pub end: u64,
    pub available: bool,
}

/// Whether `area` is available and holds `addr`.
pub open spec fn contains(area: MemoryRegion, addr: u64) -> bool {
    area.available && area.start <= addr && addr <= area.end
}

/// Whether `areas[i]` is the first area that is available and holds `addr`.
pub open spec fn first_holding(areas: Seq<MemoryRegion>, addr: u64, i: int) -> bool {
    &&& 0 <= i < areas.len()
    &&& contains(areas[i], addr)
    &&& forall|j: int| 0 <= j < i ==> !contains(#[trigger] areas[j], addr)
}

/// The end of the first available area that holds `ram_start`, when that
/// area leaves at least `RAM_BYTES` bytes from `ram_start` on; `None`, a boot
/// failure, otherwise.
pub fn ram_region_end(areas: &[MemoryRegion], ram_start: u64) -> (r: Option<u64>)
    ensures
        r is Some <==> exists|i: int|
            first_holding(areas@, ram_start, i) && areas@[i].end - ram_start >= RAM_BYTES,
        r matches Some(end) ==> exists|i: int|
            first_holding(areas@, ram_start, i) && end == areas@[i].end,
{
    let mut i: usize = 0;
    while i < areas.len()
        invariant
            i <= areas@.len(),
            forall|j: int| 0 <= j < i ==> !contains(#[trigger] areas@[j], ram_start),
        decreases areas@.len() - i,
    {
        let area = areas[i];
        if area.available && area.start <= ram_start && ram_start <= area.end {
            assert(first_holding(areas@, ram_start, i as int));
            assert forall|k: int| #[trigger] first_holding(areas@, ram_start, k) implies k == i by {
                if k < i {
                } else if k > i {
                    assert(!contains(areas@[i as int], ram_start));
                }
            }
            if area.end - ram_start >= RAM_BYTES {
                return Some(area.end);
            } else {
                return None;
            }
        }
        i = i + 1;
    }
    None
}

/// The number of stack words that fit between the end of guest RAM and
/// `ram_end`, at most `MAX_STACK_WORDS`.
pub fn stack_words(ram_start: u64, ram_end: u64) -> (r: usize)
    requires
        ram_end - ram_start >= RAM_BYTES,
    ensures
        r == if (ram_end - ram_start - RAM_BYTES) / 2 <= MAX_STACK_WORDS {
            (ram_end - ram_start - RAM_BYTES) / 2
        } else {
            MAX_STACK_WORDS as int
        },
{
    let words = (ram_end - ram_start - RAM_BYTES) / 2;
    if words <= MAX_STACK_WORDS as u64 {
        words as usize
    } else {
        MAX_STACK_WORDS
    }
}

/// The program picker after `key`: the arrow keys move the selection within
/// `0..count`, Enter confirms it.
pub open spec fn picked(selected: nat, count: nat, key: KeyEvent) -> (nat, bool) {
    match key {
        KeyEvent::RawKey(RawKeyCode::ArrowUp) => (if selected > 0 {
            (selected - 1) as nat
        } else {
            selected
        }, false),
        KeyEvent::RawKey(RawKeyCode::ArrowDown) => (if selected + 1 < count {
            selected + 1
        } else {
            selected
        }, false),
        KeyEvent::Unicode(c) => (selected, c == '\n'),
        KeyEvent::RawKey(_) => (selected, false),
    }
}

/// Applies one key to the picker's selection: returns the new selection and
/// whether the key confirmed it.
pub fn select_key(selected: usize, count: usize, key: KeyEvent) -> (r: (usize, bool))
    requires
        selected < count,
    ensures
        (r.0 as nat, r.1) == picked(selected as nat, count as nat, key),
        r.0 < count,
{
    match key {
        KeyEvent::RawKey(RawKeyCode::ArrowUp) => {
            if selected > 0 {
                (selected - 1, false)
            } else {
                (selected, false)
            }
        },
        KeyEvent::RawKey(RawKeyCode::ArrowDown) => {
            if selected + 1 < count {
                (selected + 1, false)
            } else {
                (selected, false)
            }
        },
        KeyEvent::Unicode(c) => (selected, c == '\n'),
        KeyEvent::RawKey(_) => (selected, false),
    }
}

/// The console row of entry `index` of a list of `count` programs that ends
/// on the last row but one.
pub fn picker_row(count: usize, index: usize) -> (r: usize)
    requires
        count <= 24,
        index < count,
    ensures
        r == 24 - count + index,
        r < 24,
{
    24 - count + index
}

} // verus!
