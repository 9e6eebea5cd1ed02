//! The cartridge mapper as a shared resource. Its bank-switching internals
//! are a collaborator concern; this module models the byte state the two
//! co-owners (the processor-side memory map and the picture unit's video
//! memory) can observe, and the runtime-checked exclusive-access guard that
//! serializes mutating operations on it.

use vstd::prelude::*;

verus! {

/// Violation of the shared-access protocol: a second mutating operation was
/// begun while one was already in flight. Unrecoverable by design — the
/// caller must treat it as fatal, never retry it.
#[derive(Clone, Copy, PartialEq, Eq, Structural, Debug)]
pub struct MapperBusy {
}

/// Cartridge state co-owned by exactly two parties. `prg` is the
/// processor-visible byte window, `chr` the picture-unit-visible one; `busy`
/// is the exclusive-access guard over both. Mutation is permitted only
/// between [`SharedMapper::begin_op`] and [`SharedMapper::end_op`]; reads
/// interleave only between discrete operations.
pub struct SharedMapper {
    prg: Vec<u8>,
    chr: Vec<u8>,
    busy: bool,
}

impl SharedMapper {
    /// The processor-visible cartridge bytes.
    pub closed spec fn prg_view(self) -> Seq<u8> {
        self.prg@
    }

    /// The picture-unit-visible cartridge bytes.
    pub closed spec fn chr_view(self) -> Seq<u8> {
        self.chr@
    }

    /// Whether a mutating operation is in flight.
    pub closed spec fn is_busy(self) -> bool {
        self.busy
    }

    /// Wraps freshly loaded cartridge state; no operation is in flight.
    pub fn new(prg: Vec<u8>, chr: Vec<u8>) -> (m: SharedMapper)
        ensures
            m.prg_view() == prg@,
            m.chr_view() == chr@,
            !m.is_busy(),
            m.prg_view().len() <= usize::MAX,
            m.chr_view().len() <= usize::MAX,
    {
        let _prg_len: usize = prg.len();
        let _chr_len: usize = chr.len();
        SharedMapper { prg, chr, busy: false }
    }

    /// Begins one exclusive mutating operation. If another operation is
    /// already in flight this fails fast, leaving all state untouched,
    /// rather than letting re-entrant mutation corrupt it.
    pub fn begin_op(&mut self) -> (r: Result<(), MapperBusy>)
        ensures
            r is Ok <==> !old(self).is_busy(),
            r is Ok ==> final(self).is_busy(),
            r is Err ==> final(self).is_busy() == old(self).is_busy(),
            final(self).prg_view() == old(self).prg_view(),
            final(self).chr_view() == old(self).chr_view(),
    {
        if self.busy {
            Err(MapperBusy {  })
        } else {
            self.busy = true;
            Ok(())
        }
    }

    /// Ends the in-flight operation, releasing exclusive access.
    pub fn end_op(&mut self)
        requires
            old(self).is_busy(),
        ensures
            !final(self).is_busy(),
            final(self).prg_view() == old(self).prg_view(),
            final(self).chr_view() == old(self).chr_view(),
    {
        self.busy = false;
    }

    /// Borrows the whole processor-visible window, for the host to persist.
    pub fn prg_ref(&self) -> (r: &Vec<u8>)
        ensures
            r@ == self.prg_view(),
    {
        &self.prg
    }

    /// Borrows the whole picture-unit-visible window, for the host to
    /// persist.
    pub fn chr_ref(&self) -> (r: &Vec<u8>)
        ensures
            r@ == self.chr_view(),
    {
        &self.chr
    }

    /// Reads one processor-visible byte between operations; addresses past
    /// the cartridge's end read as open bus (zero).
    pub fn prg_read(&self, addr: usize) -> (b: u8)
        requires
            !self.is_busy(),
        ensures
            b == (if addr < self.prg_view().len() {
                self.prg_view()[addr as int]
            } else {
                0u8
            }),
    {
        if addr < self.prg.len() {
            self.prg[addr]
        } else {
            0
        }
    }

    /// Reads one picture-unit-visible byte between operations; addresses
    /// past the cartridge's end read as open bus (zero).
    pub fn chr_read(&self, addr: usize) -> (b: u8)
        requires
            !self.is_busy(),
        ensures
            b == (if addr < self.chr_view().len() {
                self.chr_view()[addr as int]
            } else {
                0u8
            }),
    {
        if addr < self.chr.len() {
            self.chr[addr]
        } else {
            0
        }
    }

    /// Writes one processor-visible byte inside an exclusive operation;
    /// writes past the cartridge's end land on open bus and change nothing.
    pub fn prg_write(&mut self, addr: usize, val: u8)
        requires
            old(self).is_busy(),
        ensures
            final(self).is_busy(),
            final(self).chr_view() == old(self).chr_view(),
            addr < old(self).prg_view().len() ==> final(self).prg_view() == old(
                self,
            ).prg_view().update(addr as int, val),
            addr >= old(self).prg_view().len() ==> final(self).prg_view() == old(self).prg_view(),
    {
        if addr < self.prg.len() {
            self.prg.set(addr, val);
        }
    }

    /// Writes one picture-unit-visible byte inside an exclusive operation;
    /// writes past the cartridge's end land on open bus and change nothing.
    pub fn chr_write(&mut self, addr: usize, val: u8)
        requires
            old(self).is_busy(),
        ensures
            final(self).is_busy(),
            final(self).prg_view() == old(self).prg_view(),
            addr < old(self).chr_view().len() ==> final(self).chr_view() == old(
                self,
            ).chr_view().update(addr as int, val),
            addr >= old(self).chr_view().len() ==> final(self).chr_view() == old(self).chr_view(),
    {
        if addr < self.chr.len() {
            self.chr.set(addr, val);
        }
    }
}

} // verus!
