use crate::vm::MEMORY_SIZE;
use vstd::prelude::*;

verus! {

/// The two-byte big-endian field of `bytes` that starts at `addr`.
pub open spec fn be16(bytes: Seq<u8>, addr: int) -> int {
    bytes[addr] * 0x100 + bytes[addr + 1]
}

/// The three-byte big-endian field of `bytes` that starts at `addr`.
pub open spec fn be24(bytes: Seq<u8>, addr: int) -> int {
    bytes[addr] * 0x1_0000 + bytes[addr + 1] * 0x100 + bytes[addr + 2]
}

/// `bytes` with the low 16 bits of `value` stored big-endian at `addr`.
pub open spec fn put16(bytes: Seq<u8>, addr: int, value: int) -> Seq<u8> {
    bytes.update(addr, ((value / 0x100) % 0x100) as u8).update(addr + 1, (value % 0x100) as u8)
}

/// `bytes` with the low 24 bits of `value` stored big-endian at `addr`.
pub open spec fn put24(bytes: Seq<u8>, addr: int, value: int) -> Seq<u8> {
    bytes.update(addr, ((value / 0x1_0000) % 0x100) as u8).update(
        addr + 1,
        ((value / 0x100) % 0x100) as u8,
    ).update(addr + 2, (value % 0x100) as u8)
}

/// `bytes` with `image` laid over it from `offset` on.
pub open spec fn overlay(bytes: Seq<u8>, offset: int, image: Seq<u8>) -> Seq<u8> {
    Seq::new(
        bytes.len(),
        |i: int|
            if offset <= i < offset + image.len() {
                image[i - offset]
            } else {
                bytes[i]
            },
    )
}

/// Why a bulk copy into memory was turned down.
#[derive(Clone, Copy, Debug, PartialEq, Eq, Structural)]
pub enum MemoryError {
    /// `length` bytes from `offset` on do not fit into `capacity` bytes.
    SizeMismatch { offset: usize, length: usize, capacity: usize },
}

/// The machine's storage: a flat run of bytes, addressed from zero.
///
/// Its view is the sequence of its bytes.
pub struct Memory {
    data: Vec<u8>,
}

impl View for Memory {
    type V = Seq<u8>;

    closed spec fn view(&self) -> Seq<u8> {
        self.data@
    }
}

impl Memory {
    /// A memory of `size` bytes, all zero.
    pub fn new(size: usize) -> (mem: Memory)
        ensures
            mem@ == Seq::new(size as nat, |i: int| 0u8),
    {
        let data: Vec<u8> = vec![0u8; size];
        assert(data@ =~= Seq::new(size as nat, |i: int| 0u8));
        Memory { data }
    }

    /// A memory never holds more bytes than an address can count.
    pub proof fn lemma_len_fits(&self)
        ensures
            self@.len() <= usize::MAX,
    {
        assert(self.data@.len() == self.data.len());
    }

    /// The number of bytes.
    pub fn len(&self) -> (n: usize)
        ensures
            n == self@.len(),
    {
        self.data.len()
    }

    /// The byte at `addr`.
    pub fn read8(&self, addr: usize) -> (byte: u8)
        requires
            addr < self@.len(),
        ensures
            byte == self@[addr as int],
    {
        self.data[addr]
    }

    /// Stores `byte` at `addr`.
    pub fn write8(&mut self, addr: usize, byte: u8)
        requires
            addr < old(self)@.len(),
        ensures
            final(self)@ == old(self)@.update(addr as int, byte),
    {
        self.data[addr] = byte;
    }

    /// Copies `rom` into memory from `offset` on, if it fits; otherwise
    /// leaves memory as it was and reports the sizes.
    pub fn copy_from(&mut self, offset: usize, rom: &[u8]) -> (r: Result<(), MemoryError>)
        ensures
            r is Ok <==> offset + rom@.len() <= old(self)@.len(),
            r is Ok ==> final(self)@ == overlay(old(self)@, offset as int, rom@),
            r is Err ==> final(self)@ == old(self)@ && r == Err::<(), MemoryError>(
                MemoryError::SizeMismatch {
                    offset,
                    length: rom@.len() as usize,
                    capacity: old(self)@.len() as usize,
                },
            ),
    {
        let capacity = self.data.len();
        let length = rom.len();
        if length > capacity || offset > capacity - length {
            return Err(MemoryError::SizeMismatch { offset, length, capacity });
        }
        let mut i: usize = 0;
        while i < length
            invariant
                i <= length,
                length == rom@.len(),
                offset + length <= capacity,
                capacity == self.data@.len(),
                capacity == old(self)@.len(),
                forall|j: int| 0 <= j < capacity && !(offset <= j < offset + i) ==> self.data@[j] == old(self)@[j],
                forall|j: int| offset <= j < offset + i ==> self.data@[j] == rom@[j - offset],
            decreases length - i,
        {
            self.data[offset + i] = rom[i];
            i += 1;
        }
        assert(self.data@ =~= overlay(old(self)@, offset as int, rom@));
        Ok(())
    }

    /// The bytes from `start` up to `start + len`, copied out.
    pub fn slice(&self, start: usize, len: usize) -> (window: Vec<u8>)
        requires
            start + len <= self@.len(),
        ensures
            window@ == self@.subrange(start as int, start + len),
    {
        proof {
            self.lemma_len_fits();
        }
        let mut window: Vec<u8> = Vec::with_capacity(len);
        let mut i: usize = 0;
        while i < len
            invariant
                i <= len,
                start + len <= self.data@.len() <= usize::MAX,
                window@ == self.data@.subrange(start as int, start + i),
            decreases len - i,
        {
            window.push(self.data[start + i]);
            i += 1;
            assert(window@ =~= self.data@.subrange(start as int, start + i));
        }
        window
    }

    /// The three-byte big-endian field at `addr`.
    pub fn read_24_bits(&self, addr: usize) -> (value: usize)
        requires
            addr + 3 <= self@.len(),
        ensures
            value == be24(self@, addr as int),
            value < 0x100_0000,
    {
        proof {
            self.lemma_len_fits();
        }
        let a = self.data[addr];
        let b = self.data[addr + 1];
        let c = self.data[addr + 2];
        assert(((a as usize) << 16) | ((b as usize) << 8) | (c as usize) == a * 0x1_0000 + b * 0x100
            + c) by (bit_vector);
        ((a as usize) << 16) | ((b as usize) << 8) | (c as usize)
    }

    /// Stores the low 24 bits of `value` big-endian at `addr`.
    pub fn write_24_bits(&mut self, addr: usize, value: usize)
        requires
            addr + 3 <= old(self)@.len(),
        ensures
            final(self)@ == put24(old(self)@, addr as int, value as int),
    {
        assert((value >> 16) & 0xFF == (value / 0x1_0000) % 0x100) by (bit_vector);
        assert((value >> 8) & 0xFF == (value / 0x100) % 0x100) by (bit_vector);
        assert(value & 0xFF == value % 0x100) by (bit_vector);
        proof {
            self.lemma_len_fits();
        }
        let hi = ((value >> 16) & 0xFF) as u8;
        let mid = ((value >> 8) & 0xFF) as u8;
        let lo = (value & 0xFF) as u8;
        self.data[addr] = hi;
        self.data[addr + 1] = mid;
        self.data[addr + 2] = lo;
    }

    /// The two-byte big-endian field at `addr`.
    pub fn read_16_bits(&self, addr: usize) -> (value: u16)
        requires
            addr + 2 <= self@.len(),
        ensures
            value == be16(self@, addr as int),
    {
        proof {
            self.lemma_len_fits();
        }
        let a = self.data[addr];
        let b = self.data[addr + 1];
        assert(((a as u16) << 8) | (b as u16) == a * 0x100 + b) by (bit_vector);
        ((a as u16) << 8) | (b as u16)
    }

    /// Stores `value` big-endian at `addr`.
    pub fn write_16_bits(&mut self, addr: usize, value: u16)
        requires
            addr + 2 <= old(self)@.len(),
        ensures
            final(self)@ == put16(old(self)@, addr as int, value as int),
    {
        assert((value >> 8) == (value / 0x100) % 0x100 && (value >> 8) <= 0xFF) by (bit_vector);
        assert((value & 0xFF) == value % 0x100 && (value & 0xFF) <= 0xFF) by (bit_vector);
        proof {
            self.lemma_len_fits();
        }
        let hi = (value >> 8) as u8;
        let lo = (value & 0xFF) as u8;
        self.data[addr] = hi;
        self.data[addr + 1] = lo;
    }
}

impl Default for Memory {
    /// The machine's memory: 16 MiB, all zero.
    fn default() -> (mem: Memory)
        ensures
            mem@ == Seq::new(0x100_0000, |i: int| 0u8),
    {
        Memory::new(MEMORY_SIZE)
    }
}

impl std::ops::Index<usize> for Memory {
    type Output = u8;

    fn index(&self, index: usize) -> (byte: &u8)
        ensures
            *byte == self@[index as int],
    {
        &self.data[index]
    }
}

impl vstd::std_specs::core::IndexSpecImpl<usize> for Memory {
    open spec fn index_req(&self, index: &usize) -> bool {
        *index < self@.len()
    }
}

impl std::ops::IndexMut<usize> for Memory {
    fn index_mut(&mut self, index: usize) -> (byte: &mut u8)
        requires
            index < old(self)@.len(),
        ensures
            *byte == old(self)@[index as int],
            final(self)@ == old(self)@.update(index as int, *final(byte)),
    {
        &mut self.data[index]
    }
}

impl std::ops::Index<std::ops::Range<usize>> for Memory {
    type Output = [u8];

    fn index(&self, index: std::ops::Range<usize>) -> (window: &[u8])
        ensures
            window@ == self@.subrange(index.start as int, index.end as int),
    {
        &self.data[index]
    }
}

impl vstd::std_specs::core::IndexSpecImpl<std::ops::Range<usize>> for Memory {
    open spec fn index_req(&self, index: &std::ops::Range<usize>) -> bool {
        index.start <= index.end <= self@.len()
    }
}

/// A two-byte field reads back as the value that was stored in it.
pub proof fn lemma_read16_write16(bytes: Seq<u8>, addr: int, value: int)
    requires
        0 <= addr,
        addr + 2 <= bytes.len(),
        0 <= value < 0x1_0000,
    ensures
        be16(put16(bytes, addr, value), addr) == value,
{
}

/// A three-byte field reads back as the value that was stored in it.
pub proof fn lemma_read24_write24(bytes: Seq<u8>, addr: int, value: int)
    requires
        0 <= addr,
        addr + 3 <= bytes.len(),
        0 <= value < 0x100_0000,
    ensures
        be24(put24(bytes, addr, value), addr) == value,
{
}

/// A byte reads back as the value that was stored in it.
pub proof fn lemma_read8_write8(bytes: Seq<u8>, addr: int, value: u8)
    requires
        0 <= addr < bytes.len(),
    ensures
        bytes.update(addr, value)[addr] == value,
{
}

} // verus!
