//! The 64 KiB flat memory of the machine, kept in a `bytes::BytesMut`.

use bytes::BytesMut;
use vstd::prelude::*;

verus! {

/// Number of addressable cells.
pub const MEMORY_SIZE: usize = 0x10000;

#[verifier::external_type_specification]
#[verifier::external_body]
pub struct ExBytesMut(bytes::BytesMut);

/// The bytes a buffer holds, first to last.
pub uninterp spec fn buffer_bytes(buffer: BytesMut) -> Seq<u8>;

/// `BytesMut::zeroed`: a fresh buffer of `len` zero bytes.
#[verifier::external_body]
fn buffer_zeroed(len: usize) -> (buffer: BytesMut)
    ensures
        buffer_bytes(buffer) == Seq::new(len as nat, |i: int| 0u8),
{
    BytesMut::zeroed(len)
}

/// Indexing a `BytesMut` through its `Deref` to `[u8]`: the byte at `index`.
#[verifier::external_body]
fn buffer_get(buffer: &BytesMut, index: usize) -> (byte: u8)
    requires
        index < buffer_bytes(*buffer).len(),
    ensures
        byte == buffer_bytes(*buffer)[index as int],
{
    buffer[index]
}

/// Assigning through the `DerefMut` of a `BytesMut` to `[u8]`: the byte at
/// `index` becomes `byte`, every other byte and the length stay. With the
/// index in range the assignment cannot panic.
#[verifier::external_body]
fn buffer_set(buffer: &mut BytesMut, index: usize, byte: u8)
    requires
        index < buffer_bytes(*old(buffer)).len(),
    ensures
        buffer_bytes(*final(buffer)) == buffer_bytes(*old(buffer)).update(index as int, byte),
    no_unwind
{
    buffer[index] = byte;
}

/// `memory` after `bytes` were written one after the other from `start` on,
/// going round from the last address to the first.
pub open spec fn written(memory: Seq<u8>, start: u16, bytes: Seq<u8>) -> Seq<u8>
    decreases bytes.len(),
{
    if bytes.len() == 0 {
        memory
    } else {
        written(memory, start, bytes.drop_last()).update(
            (start + bytes.len() - 1) % (MEMORY_SIZE as int),
            bytes.last(),
        )
    }
}

/// The `len` bytes of `memory` from `start` on, going round from the last
/// address to the first.
pub open spec fn window_of(memory: Seq<u8>, start: u16, len: nat) -> Seq<u8> {
    Seq::new(len, |i: int| memory[(start + i) % (MEMORY_SIZE as int)])
}

/// The flat address space `M[0..=0xFFFF]`.
pub struct Memory {
    bytes: BytesMut,
}

impl View for Memory {
    type V = Seq<u8>;

    closed spec fn view(&self) -> Seq<u8> {
        buffer_bytes(self.bytes)
    }
}

impl Memory {
    #[verifier::type_invariant]
    spec fn full_size(&self) -> bool {
        buffer_bytes(self.bytes).len() == MEMORY_SIZE
    }

    /// A memory of 65,536 zero bytes.
    pub fn new() -> (memory: Memory)
        ensures
            memory@ == Seq::new(MEMORY_SIZE as nat, |i: int| 0u8),
    {
        Memory { bytes: buffer_zeroed(MEMORY_SIZE) }
    }

    /// The number of cells, which is `MEMORY_SIZE` for every memory.
    pub fn len(&self) -> (len: usize)
        ensures
            len == MEMORY_SIZE,
            self@.len() == MEMORY_SIZE,
    {
        proof {
            use_type_invariant(self);
        }
        MEMORY_SIZE
    }

    /// The byte at `addr`.
    pub fn read(&self, addr: u16) -> (byte: u8)
        ensures
            self@.len() == MEMORY_SIZE,
            byte == self@[addr as int],
    {
        proof {
            use_type_invariant(self);
        }
        buffer_get(&self.bytes, addr as usize)
    }

    /// Stores `byte` at `addr`.
    pub fn write(&mut self, addr: u16, byte: u8)
        ensures
            final(self)@.len() == MEMORY_SIZE,
            final(self)@ == old(self)@.update(addr as int, byte),
    {
        proof {
            use_type_invariant(&*self);
        }
        buffer_set(&mut self.bytes, addr as usize, byte);
    }
}

impl Memory {
    /// Sets every byte to zero.
    pub fn clear(&mut self)
        ensures
            final(self)@ == Seq::new(MEMORY_SIZE as nat, |i: int| 0u8),
    {
        let mut addr: u16 = 0;
        let _ = self.len();
        self.write(0, 0);
        while addr < 0xFFFF
            invariant
                self@.len() == MEMORY_SIZE,
                forall|i: int| 0 <= i <= addr ==> self@[i] == 0u8,
            decreases 0xFFFF - addr,
        {
            addr = addr + 1;
            self.write(addr, 0);
        }
        assert(self@ =~= Seq::new(MEMORY_SIZE as nat, |i: int| 0u8));
    }

    /// Writes `bytes` one after the other from `start` on. Past the last
    /// address the writing goes on at address zero.
    pub fn write_bytes(&mut self, start: u16, bytes: &[u8])
        ensures
            final(self)@.len() == MEMORY_SIZE,
            final(self)@ == written(old(self)@, start, bytes@),
    {
        let mut i: usize = 0;
        let mut addr: u16 = start;
        let _ = self.len();
        assert(bytes@.take(0) =~= Seq::<u8>::empty());
        while i < bytes.len()
            invariant
                i <= bytes@.len(),
                addr == (start + i) % (MEMORY_SIZE as int),
                self@.len() == MEMORY_SIZE,
                self@ == written(old(self)@, start, bytes@.take(i as int)),
            decreases bytes@.len() - i,
        {
            self.write(addr, bytes[i]);
            proof {
                let prefix = bytes@.take(i + 1);
                assert(prefix.drop_last() =~= bytes@.take(i as int));
                assert(prefix.last() == bytes@[i as int]);
            }
            addr = if addr == 0xFFFF {
                0
            } else {
                addr + 1
            };
            i = i + 1;
        }
        assert(bytes@.take(i as int) =~= bytes@);
    }

    /// Copies `len` bytes out, from `start` on. Past the last address the
    /// reading goes on at address zero.
    pub fn window(&self, start: u16, len: usize) -> (bytes: Vec<u8>)
        ensures
            bytes@ == window_of(self@, start, len as nat),
    {
        let mut bytes: Vec<u8> = Vec::new();
        let mut addr: u16 = start;
        while bytes.len() < len
            invariant
                bytes@.len() <= len,
                addr == (start + bytes@.len()) % (MEMORY_SIZE as int),
                bytes@ =~= window_of(self@, start, bytes@.len()),
            decreases len - bytes@.len(),
        {
            bytes.push(self.read(addr));
            addr = if addr == 0xFFFF {
                0
            } else {
                addr + 1
            };
        }
        bytes
    }
}

/// Whether no two different bytes of `bytes` land on one address when they
/// are written one after the other: bytes a whole number of memory sizes
/// apart are equal. Every sequence of at most 65,536 bytes is of that kind.
pub open spec fn lands_once(bytes: Seq<u8>) -> bool {
    forall|i: int, j: int|
        0 <= i < j < bytes.len() && (j - i) % (MEMORY_SIZE as int) == 0 ==> bytes[i] == bytes[j]
}

/// A sequence no longer than memory lands once.
pub proof fn lemma_short_lands_once(bytes: Seq<u8>)
    requires
        bytes.len() <= MEMORY_SIZE,
    ensures
        lands_once(bytes),
{
    assert forall|i: int, j: int|
        0 <= i < j < bytes.len() && (j - i) % (MEMORY_SIZE as int) == 0 implies bytes[i]
        == bytes[j] by {
        assert((j - i) % (MEMORY_SIZE as int) == j - i);
    }
}

/// What was written can be read back whole, unless a later byte went over
/// an earlier, different one: the window of the same length at the same
/// place holds the bytes written, and every address that the writing did
/// not reach holds what it held before.
#[verifier::rlimit(40)]
pub proof fn lemma_written_window(memory: Seq<u8>, start: u16, bytes: Seq<u8>)
    requires
        memory.len() == MEMORY_SIZE,
        lands_once(bytes),
    ensures
        written(memory, start, bytes).len() == MEMORY_SIZE,
        window_of(written(memory, start, bytes), start, bytes.len()) == bytes,
        forall|addr: int|
            0 <= addr < MEMORY_SIZE && (addr - start) % (MEMORY_SIZE as int) >= bytes.len()
                ==> written(memory, start, bytes)[addr] == memory[addr],
    decreases bytes.len(),
{
    let size = MEMORY_SIZE as int;
    if bytes.len() > 0 {
        let shorter = bytes.drop_last();
        assert(lands_once(shorter)) by {
            assert forall|i: int, j: int|
                0 <= i < j < shorter.len() && (j - i) % size == 0 implies shorter[i]
                == shorter[j] by {
                assert(shorter[i] == bytes[i] && shorter[j] == bytes[j]);
            }
        }
        lemma_written_window(memory, start, shorter);
        let before = written(memory, start, shorter);
        let top = bytes.len() - 1;
        let last = (start + top) % size;
        let after = written(memory, start, bytes);
        assert(after == before.update(last, bytes.last()));
        assert forall|i: int| 0 <= i < bytes.len() implies window_of(after, start, bytes.len())[i]
            == bytes[i] by {
            if i < top {
                assert(window_of(before, start, shorter.len())[i] == shorter[i]);
                if (start + i) % size == last {
                    vstd::arithmetic::div_mod::lemma_mod_equivalence(start + top, start + i, size);
                    assert((top - i) % size == 0);
                    assert(bytes[i] == bytes[top]);
                }
            }
        }
        assert(window_of(after, start, bytes.len()) =~= bytes);
        assert forall|addr: int|
            0 <= addr < MEMORY_SIZE && (addr - start) % size >= bytes.len() implies after[addr]
            == memory[addr] by {
            if addr == last {
                vstd::arithmetic::div_mod::lemma_mod_equivalence(start + top, addr, size);
                vstd::arithmetic::div_mod::lemma_mod_equivalence(top, addr - start, size);
                assert((start + top) % size == addr % size);
                assert(top % size == (addr - start) % size);
                assert(top % size <= top);
            }
        }
    } else {
        assert(window_of(memory, start, 0) =~= bytes);
    }
}

} // verus!
