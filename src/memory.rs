use vstd::prelude::*;

verus! {

/// The word `w` with its two bytes exchanged.
pub open spec fn swapped(w: u16) -> u16 {
    (((w & 0x00ff) << 8u16) | ((w & 0xff00) >> 8u16)) as u16
}

/// Exchanges the two bytes of a 16-bit word, turning a guest (big-endian)
/// word into its host (little-endian) layout and back.
pub fn swap_endianness(value: u16) -> (r: u16)
    ensures
        r == swapped(value),
        r & 0x00ff == value >> 8u16,
        r >> 8u16 == value & 0x00ff,
{
    let b0 = value & 0x00ff;
    let b1 = (value & 0xff00) >> 8;
    let r = b0 << 8 | b1;
    assert(r & 0x00ff == value >> 8u16 && r >> 8u16 == value & 0x00ff) by (bit_vector)
        requires r == (((value & 0x00ff) << 8u16) | ((value & 0xff00) >> 8u16));
    r
}

/// Swapping twice gives the word back.
pub proof fn lemma_swap_involutive(w: u16)
    ensures
        swapped(swapped(w)) == w,
{
    assert((((((w & 0x00ff) << 8u16) | ((w & 0xff00) >> 8u16)) & 0x00ff) << 8u16 | (((((w & 0x00ff) << 8u16) | ((w & 0xff00) >> 8u16)) & 0xff00) >> 8u16)) == w) by (bit_vector);
}

/// The number of 16-bit words of guest RAM.
pub const RAM_WORDS: usize = 0x10000;

/// The guest word at index `i` of a RAM image that holds each word in host
/// byte order.
pub open spec fn mem_read(ram: Seq<u16>, i: u16) -> u16 {
    swapped(ram[i as int])
}

/// The RAM image after the guest word `v` is stored at index `i`.
pub open spec fn mem_write(ram: Seq<u16>, i: u16, v: u16) -> Seq<u16> {
    ram.update(i as int, swapped(v))
}

/// A word written at an index reads back unchanged, and the other indices
/// keep their words.
pub proof fn lemma_write_then_read(ram: Seq<u16>, i: u16, j: u16, w: u16)
    requires
        ram.len() == RAM_WORDS,
    ensures
        mem_read(mem_write(ram, i, w), i) == w,
        i != j ==> mem_read(mem_write(ram, i, w), j) == mem_read(ram, j),
{
    lemma_swap_involutive(w);
}

} // verus!
