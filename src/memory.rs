use vstd::prelude::*;
use crate::util::{high_byte, join_u8, low_byte, split_u16, word, wrap16};

verus! {

/// The little-endian word at `address` of a 64 KiB memory: low byte at `address`,
/// high byte at `address + 1` (wrapping to 0 after 0xFFFF).
pub open spec fn word_at(memory: Seq<u8>, address: u16) -> u16 {
    word(memory[wrap16(address + 1) as int], memory[address as int])
}

/// The memory after writing `value` as a little-endian word at `address`.
pub open spec fn with_word(memory: Seq<u8>, address: u16, value: u16) -> Seq<u8> {
    memory.update(address as int, low_byte(value)).update(wrap16(address + 1) as int, high_byte(value))
}

/// A flat, byte-addressable 64 KiB memory. Its view is the sequence of its bytes.
#[derive(Debug)]
pub struct MemoryBus {
    pub memory: [u8; 0x10000],
}

impl View for MemoryBus {
    type V = Seq<u8>;

    open spec fn view(&self) -> Seq<u8> {
        self.memory@
    }
}

impl MemoryBus {
    /// A memory whose bytes are all zero.
    pub fn new() -> (r: MemoryBus)
        ensures
            r@ == Seq::new(0x10000, |i: int| 0u8),
    {
        let r = MemoryBus { memory: [0u8; 0x10000] };
        assert(r@ =~= Seq::new(0x10000, |i: int| 0u8));
        r
    }

    pub fn read_byte(&self, address: u16) -> (r: u8)
        ensures
            r == self@[address as int],
    {
        self.memory[address as usize]
    }

    pub fn write_byte(&mut self, address: u16, value: u8)
        ensures
            final(self)@ == old(self)@.update(address as int, value),
    {
        self.memory[address as usize] = value;
    }

    pub fn read_word(&self, lsb_address: u16) -> (r: u16)
        ensures
            r == word_at(self@, lsb_address),
    {
        let lsb_value = self.memory[lsb_address as usize];
        let msb_value = self.memory[lsb_address.wrapping_add(1) as usize];
        join_u8(msb_value, lsb_value)
    }

    pub fn write_word(&mut self, lsb_address: u16, word: u16)
        ensures
            final(self)@ == with_word(old(self)@, lsb_address, word),
    {
        let (msb_word, lsb_word) = split_u16(word);
        self.memory[lsb_address as usize] = lsb_word;
        self.memory[lsb_address.wrapping_add(1) as usize] = msb_word;
    }
}

/// Writing a word and reading it back at the same address gives the word, also at
/// 0xFFFF, where the high byte wraps to address 0.
pub proof fn lemma_word_round_trip(memory: Seq<u8>, address: u16, value: u16)
    requires
        memory.len() == 0x10000,
    ensures
        word_at(with_word(memory, address, value), address) == value,
{
    let m = with_word(memory, address, value);
    assert(wrap16(address + 1) != address);
    assert(m[address as int] == low_byte(value));
    assert(m[wrap16(address + 1) as int] == high_byte(value));
}

} // verus!
