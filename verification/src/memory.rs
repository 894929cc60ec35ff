//! The address space: 65,536 bytes, addressed by a 16-bit address.
//!
//! The model of an [`AddressSpace`] is the sequence of its bytes, `Seq<u8>` of length
//! [`ADDRESS_SPACE_SIZE`]. Sixteen-bit words are stored little-endian: the low byte at the
//! address, the high byte one above it.
use vstd::prelude::*;

verus! {

/// Number of bytes in the address space.
pub const ADDRESS_SPACE_SIZE: usize = 0x10000;

/// The word whose low byte is `lo` and whose high byte is `hi`.
pub open spec fn word_of(lo: u8, hi: u8) -> u16 {
    (hi as int * 256 + lo as int) as u16
}

/// The low byte of `word`.
pub open spec fn low_byte(word: u16) -> u8 {
    (word as int % 256) as u8
}

/// The high byte of `word`.
pub open spec fn high_byte(word: u16) -> u8 {
    (word as int / 256) as u8
}

/// The byte at `addr` in `mem`.
pub open spec fn read8(mem: Seq<u8>, addr: u16) -> u8 {
    mem[addr as int]
}

/// `mem` with the byte at `addr` replaced by `data`.
pub open spec fn write8(mem: Seq<u8>, addr: u16, data: u8) -> Seq<u8> {
    mem.update(addr as int, data)
}

/// The little-endian word at `addr` and `addr + 1` in `mem`.
pub open spec fn read16(mem: Seq<u8>, addr: u16) -> u16 {
    word_of(mem[addr as int], mem[addr as int + 1])
}

/// `mem` with the little-endian word at `addr` and `addr + 1` replaced by `data`.
pub open spec fn write16(mem: Seq<u8>, addr: u16, data: u16) -> Seq<u8> {
    mem.update(addr as int, low_byte(data)).update(addr as int + 1, high_byte(data))
}

/// `mem` with the bytes of `block` stored from `origin` upwards.
pub open spec fn write_block(mem: Seq<u8>, origin: u16, block: Seq<u8>) -> Seq<u8> {
    Seq::new(
        mem.len(),
        |addr: int|
            if origin <= addr < origin + block.len() {
                block[addr - origin]
            } else {
                mem[addr]
            },
    )
}

/// A word is put together again from its two bytes.
pub proof fn lemma_word_of_bytes(word: u16)
    ensures
        word_of(low_byte(word), high_byte(word)) == word,
{
}

/// The two bytes of a word are the ones it was put together from.
pub proof fn lemma_bytes_of_word(lo: u8, hi: u8)
    ensures
        low_byte(word_of(lo, hi)) == lo,
        high_byte(word_of(lo, hi)) == hi,
{
}

/// A word written at an address that leaves room for its two bytes is read back unchanged,
/// and the write touches no other byte.
pub proof fn lemma_write16_read16(mem: Seq<u8>, addr: u16, data: u16)
    requires
        mem.len() == ADDRESS_SPACE_SIZE,
        addr < 0xFFFF,
    ensures
        read16(write16(mem, addr, data), addr) == data,
        write16(mem, addr, data).len() == mem.len(),
        forall|other: int|
            0 <= other < mem.len() && other != addr && other != addr + 1 ==> write16(
                mem,
                addr,
                data,
            )[other] == mem[other],
{
    lemma_word_of_bytes(data);
}

/// The memory that the processor reads and writes.
pub struct AddressSpace {
    bytes: [u8; 0x10000],
}

impl View for AddressSpace {
    type V = Seq<u8>;

    closed spec fn view(&self) -> Seq<u8> {
        self.bytes@
    }
}

impl AddressSpace {
    /// Every address space holds exactly [`ADDRESS_SPACE_SIZE`] bytes.
    pub broadcast proof fn lemma_size(&self)
        ensures
            #[trigger] self@.len() == ADDRESS_SPACE_SIZE,
    {
    }

    /// An address space in which every byte is zero.
    pub fn new() -> (space: Self)
        ensures
            space@ == Seq::new(ADDRESS_SPACE_SIZE as nat, |addr: int| 0u8),
    {
        AddressSpace { bytes: [0u8; 0x10000] }
    }

    /// The byte stored at `addr`.
    pub fn read8(&self, addr: u16) -> (data: u8)
        ensures
            data == read8(self@, addr),
    {
        self.bytes[addr as usize]
    }

    /// Stores `data` at `addr` and leaves every other byte as it was.
    pub fn write8(&mut self, addr: u16, data: u8)
        ensures
            final(self)@ == write8(old(self)@, addr, data),
    {
        self.bytes[addr as usize] = data;
    }

    /// The little-endian word stored at `addr` and `addr + 1`.
    pub fn read16(&self, addr: u16) -> (data: u16)
        requires
            addr < 0xFFFF,
        ensures
            data == read16(self@, addr),
    {
        let lo = self.read8(addr);
        let hi = self.read8(addr + 1);
        assert(((hi as u16) << 8) | (lo as u16) == (hi as u16) * 256 + (lo as u16))
            by (bit_vector);
        ((hi as u16) << 8) | (lo as u16)
    }

    /// Stores `data` little-endian at `addr` and `addr + 1` and leaves every other byte as
    /// it was.
    pub fn write16(&mut self, addr: u16, data: u16)
        requires
            addr < 0xFFFF,
        ensures
            final(self)@ == write16(old(self)@, addr, data),
    {
        assert(data >> 8 == data / 256 && data & 0xff == data % 256) by (bit_vector);
        let hi = (data >> 8) as u8;
        let lo = (data & 0xff) as u8;
        self.write8(addr, lo);
        self.write8(addr + 1, hi);
    }

    /// Stores the bytes of `block` from `origin` upwards and leaves every other byte as it
    /// was. The block has to end inside the address space.
    pub fn write_block(&mut self, origin: u16, block: &[u8])
        requires
            origin + block@.len() <= ADDRESS_SPACE_SIZE,
        ensures
            final(self)@ == write_block(old(self)@, origin, block@),
    {
        let mut done: usize = 0;
        while done < block.len()
            invariant
                done <= block@.len(),
                origin + block@.len() <= ADDRESS_SPACE_SIZE,
                self@ == write_block(old(self)@, origin, block@.take(done as int)),
            decreases block@.len() - done,
        {
            self.bytes[origin as usize + done] = block[done];
            done += 1;
        }
        assert(block@.take(done as int) == block@);
    }
}

} // verus!
