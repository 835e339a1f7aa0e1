//! The storage chip, emulated by a byte arena in memory. Addresses are
//! 16-bit offsets; every access must lie wholly inside the arena.
use vstd::prelude::*;

verus! {

/// The size of the arena, in bytes.
pub const STORAGE_SIZE: usize = 1000000;

/// The arena after `bytes` have been copied in at `address`.
pub open spec fn written(arena: Seq<u8>, address: int, bytes: Seq<u8>) -> Seq<u8> {
    arena.subrange(0, address) + bytes + arena.subrange(address + bytes.len(), arena.len() as int)
}

/// The `len` bytes of the arena that start at `address`.
pub open spec fn read_back(arena: Seq<u8>, address: int, len: int) -> Seq<u8> {
    arena.subrange(address, address + len)
}

/// An access of `len` bytes at `address` stays inside the arena.
pub open spec fn in_bounds(address: u16, len: int) -> bool {
    address as int + len <= STORAGE_SIZE as int
}

pub struct Storage {
    arena: Vec<u8>,
}

impl View for Storage {
    type V = Seq<u8>;

    closed spec fn view(&self) -> Seq<u8> {
        self.arena@
    }
}

impl Storage {
    pub open spec fn wf(&self) -> bool {
        self@.len() == STORAGE_SIZE
    }

    /// A zero-filled arena.
    pub fn new() -> (s: Storage)
        ensures
            s.wf(),
            forall|i: int| 0 <= i < STORAGE_SIZE ==> #[trigger] s@[i] == 0,
    {
        Storage { arena: vec![0u8; STORAGE_SIZE] }
    }

    /// Copies `bytes` into the arena at `address`. An access that would
    /// run past the end of the arena is a fault of the caller, and is
    /// excluded by the precondition.
    pub fn write(&mut self, address: u16, bytes: &[u8]) -> (r: Option<()>)
        requires
            old(self).wf(),
            in_bounds(address, bytes@.len() as int),
        ensures
            final(self).wf(),
            final(self)@ == written(old(self)@, address as int, bytes@),
            r == Some(()),
    {
        let start = address as usize;
        let mut i: usize = 0;
        while i < bytes.len()
            invariant
                self.wf(),
                start as int + bytes@.len() <= STORAGE_SIZE,
                i <= bytes@.len(),
                forall|m: int| 0 <= m < start ==> self.arena@[m] == old(self)@[m],
                forall|m: int| start + i <= m < STORAGE_SIZE ==> self.arena@[m] == old(self)@[m],
                forall|m: int| 0 <= m < i ==> self.arena@[start + m] == bytes@[m],
            decreases bytes@.len() - i,
        {
            self.arena.set(start + i, bytes[i]);
            i = i + 1;
        }
        assert(self@ =~= written(old(self)@, address as int, bytes@));
        Some(())
    }

    /// Copies the arena's bytes at `address` into `bytes`, as many as it
    /// holds. The access must lie inside the arena.
    pub fn read(&mut self, address: u16, bytes: &mut [u8]) -> (r: Option<()>)
        requires
            old(self).wf(),
            in_bounds(address, old(bytes)@.len() as int),
        ensures
            *final(self) == *old(self),
            final(bytes)@ == read_back(old(self)@, address as int, old(bytes)@.len() as int),
            r == Some(()),
    {
        let start = address as usize;
        let mut i: usize = 0;
        while i < bytes.len()
            invariant
                self.wf(),
                *self == *old(self),
                bytes@.len() == old(bytes)@.len(),
                start as int + bytes@.len() <= STORAGE_SIZE,
                i <= bytes@.len(),
                forall|m: int| 0 <= m < i ==> bytes@[m] == self.arena@[start + m],
            decreases bytes@.len() - i,
        {
            bytes[i] = self.arena[start + i];
            i = i + 1;
        }
        assert(bytes@ =~= read_back(old(self)@, address as int, old(bytes)@.len() as int));
        Some(())
    }
}

/// Reading back what was just written gives exactly the bytes written, for
/// every access that lies inside the arena.
pub proof fn read_after_write(arena: Seq<u8>, address: u16, bytes: Seq<u8>)
    requires
        arena.len() == STORAGE_SIZE,
        in_bounds(address, bytes.len() as int),
    ensures
        written(arena, address as int, bytes).len() == STORAGE_SIZE,
        read_back(written(arena, address as int, bytes), address as int, bytes.len() as int)
            == bytes,
{
    let w = written(arena, address as int, bytes);
    assert(read_back(w, address as int, bytes.len() as int) =~= bytes);
}

/// A write leaves every byte outside the written range as it was.
pub proof fn write_keeps_the_rest(arena: Seq<u8>, address: u16, bytes: Seq<u8>, i: int)
    requires
        arena.len() == STORAGE_SIZE,
        in_bounds(address, bytes.len() as int),
        0 <= i < STORAGE_SIZE,
        i < address || i >= address + bytes.len(),
    ensures
        written(arena, address as int, bytes)[i] == arena[i],
{
}

} // verus!
