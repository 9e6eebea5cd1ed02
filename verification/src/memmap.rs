//! The processor-facing memory map: one addressable resource composed of the
//! internal RAM, the picture-unit and audio-unit register windows, the input
//! port, and the shared cartridge mapper. Routing by address range is total
//! — every address lands in exactly one subsystem — and non-overlapping.

use vstd::prelude::*;
use crate::codec::{gamepad_bits, pack_gamepad};
use crate::input::Input;
use crate::mapper::SharedMapper;

verus! {

/// Bytes of internal RAM (mirrored through the low address range).
pub const RAM_SIZE: usize = 0x800;

/// Picture-unit registers (mirrored through their address range).
pub const PPU_REG_COUNT: usize = 8;

/// Audio-unit registers.
pub const APU_REG_COUNT: usize = 0x16;

/// The subsystem owning an address.
#[derive(Clone, Copy, PartialEq, Eq, Structural, Debug)]
pub enum Region {
    Ram,
    PpuRegs,
    ApuRegs,
    InputPort,
    Cartridge,
}

/// The routing rule: which subsystem owns each address. A total function of
/// the address, so every address maps to exactly one subsystem and the
/// ranges cannot overlap.
pub open spec fn route(addr: u16) -> Region {
    if addr < 0x2000 {
        Region::Ram
    } else if addr < 0x4000 {
        Region::PpuRegs
    } else if addr < 0x4016 {
        Region::ApuRegs
    } else if addr < 0x4018 {
        Region::InputPort
    } else {
        Region::Cartridge
    }
}

/// The routing partition, range by range: each region answers for exactly
/// its documented address interval.
pub proof fn lemma_route_partition(addr: u16)
    ensures
        (route(addr) == Region::Ram) <==> (addr < 0x2000),
        (route(addr) == Region::PpuRegs) <==> (0x2000 <= addr && addr < 0x4000),
        (route(addr) == Region::ApuRegs) <==> (0x4000 <= addr && addr < 0x4016),
        (route(addr) == Region::InputPort) <==> (0x4016 <= addr && addr < 0x4018),
        (route(addr) == Region::Cartridge) <==> (0x4018 <= addr),
{
}

/// The one addressable resource the processor sees. Owns the RAM, the two
/// register windows and the input boundary outright; the cartridge mapper is
/// the shared handle, co-owned with the picture unit's video memory.
pub struct MemMap {
    pub ram: Vec<u8>,
    pub ppu_regs: Vec<u8>,
    pub apu_regs: Vec<u8>,
    pub input: Input,
    pub mapper: SharedMapper,
}

impl MemMap {
    /// Well-formedness: the fixed-size windows have their sizes and no
    /// mapper operation is in flight between memory accesses.
    pub open spec fn wf(self) -> bool {
        &&& self.ram@.len() == RAM_SIZE
        &&& self.ppu_regs@.len() == PPU_REG_COUNT
        &&& self.apu_regs@.len() == APU_REG_COUNT
        &&& !self.mapper.is_busy()
        &&& self.mapper.prg_view().len() <= usize::MAX
        &&& self.mapper.chr_view().len() <= usize::MAX
    }

    /// The byte an address reads: RAM and picture-unit registers are
    /// mirrored through their windows, the input port reads the packed
    /// gamepad byte (its companion port reads open bus), and cartridge
    /// space reads through the shared mapper.
    pub open spec fn read_spec(self, addr: u16) -> u8 {
        match route(addr) {
            Region::Ram => self.ram@[(addr % 0x800) as int],
            Region::PpuRegs => self.ppu_regs@[(addr % 8) as int],
            Region::ApuRegs => self.apu_regs@[(addr - 0x4000) as int],
            Region::InputPort => if addr == 0x4016 {
                gamepad_bits(self.input.gamepad_0)
            } else {
                0u8
            },
            Region::Cartridge => if addr - 0x4018 < self.mapper.prg_view().len() {
                self.mapper.prg_view()[(addr - 0x4018) as int]
            } else {
                0u8
            },
        }
    }

    /// How a write moves the memory map: the owning subsystem's byte is
    /// updated — a cartridge-space write lands in the mapper's
    /// processor-visible window — while the input port and out-of-range
    /// cartridge space swallow the write, and nothing else moves.
    pub open spec fn write_rel(pre: MemMap, post: MemMap, addr: u16, val: u8) -> bool {
        &&& post.ram@ == (if route(addr) == Region::Ram {
            pre.ram@.update((addr % 0x800) as int, val)
        } else {
            pre.ram@
        })
        &&& post.ppu_regs@ == (if route(addr) == Region::PpuRegs {
            pre.ppu_regs@.update((addr % 8) as int, val)
        } else {
            pre.ppu_regs@
        })
        &&& post.apu_regs@ == (if route(addr) == Region::ApuRegs {
            pre.apu_regs@.update((addr - 0x4000) as int, val)
        } else {
            pre.apu_regs@
        })
        &&& post.input == pre.input
        &&& post.mapper.prg_view() == (if route(addr) == Region::Cartridge && addr - 0x4018
            < pre.mapper.prg_view().len() {
            pre.mapper.prg_view().update((addr - 0x4018) as int, val)
        } else {
            pre.mapper.prg_view()
        })
        &&& post.mapper.chr_view() == pre.mapper.chr_view()
        &&& post.mapper.is_busy() == pre.mapper.is_busy()
    }

    /// Composes the memory map from its pre-built parts.
    pub fn new(input: Input, mapper: SharedMapper) -> (m: MemMap)
        requires
            !mapper.is_busy(),
            mapper.prg_view().len() <= usize::MAX,
            mapper.chr_view().len() <= usize::MAX,
        ensures
            m.wf(),
            m.input == input,
            m.mapper == mapper,
            m.ram@ == Seq::<u8>::new(RAM_SIZE as nat, |i: int| 0u8),
            m.ppu_regs@ == Seq::<u8>::new(PPU_REG_COUNT as nat, |i: int| 0u8),
            m.apu_regs@ == Seq::<u8>::new(APU_REG_COUNT as nat, |i: int| 0u8),
    {
        MemMap {
            ram: make_zeroed(RAM_SIZE),
            ppu_regs: make_zeroed(PPU_REG_COUNT),
            apu_regs: make_zeroed(APU_REG_COUNT),
            input,
            mapper,
        }
    }

    /// Reads one byte, routed to the owning subsystem.
    pub fn read_byte(&self, addr: u16) -> (b: u8)
        requires
            self.wf(),
        ensures
            b == self.read_spec(addr),
    {
        if addr < 0x2000 {
            self.ram[(addr % 0x800) as usize]
        } else if addr < 0x4000 {
            self.ppu_regs[(addr % 8) as usize]
        } else if addr < 0x4016 {
            self.apu_regs[(addr - 0x4000) as usize]
        } else if addr < 0x4018 {
            if addr == 0x4016 {
                pack_gamepad(&self.input.gamepad_0)
            } else {
                0
            }
        } else {
            self.mapper.prg_read((addr - 0x4018) as usize)
        }
    }

    /// Writes one byte, routed to the owning subsystem. A write into
    /// cartridge space is one discrete mutating operation on the shared
    /// mapper, begun and ended under its exclusive-access guard.
    pub fn write_byte(&mut self, addr: u16, val: u8)
        requires
            old(self).wf(),
        ensures
            final(self).wf(),
            MemMap::write_rel(*old(self), *final(self), addr, val),
    {
        if addr < 0x2000 {
            self.ram.set((addr % 0x800) as usize, val);
        } else if addr < 0x4000 {
            self.ppu_regs.set((addr % 8) as usize, val);
        } else if addr < 0x4016 {
            self.apu_regs.set((addr - 0x4000) as usize, val);
        } else if addr < 0x4018 {
            // the input port latches nothing in this model
        } else {
            let r = self.mapper.begin_op();
            match r {
                Ok(()) => {
                    self.mapper.prg_write((addr - 0x4018) as usize, val);
                    self.mapper.end_op();
                },
                Err(_) => {
                    // unreachable under wf: no operation was in flight
                },
            }
        }
    }
}

/// A zero-filled byte vector of the given length.
pub fn make_zeroed(n: usize) -> (v: Vec<u8>)
    ensures
        v@ == Seq::<u8>::new(n as nat, |i: int| 0u8),
{
    let mut v: Vec<u8> = Vec::new();
    let mut i: usize = 0;
    while i < n
        invariant
            i <= n,
            v@ == Seq::<u8>::new(i as nat, |j: int| 0u8),
        decreases n - i,
    {
        v.push(0);
        proof {
            assert(v@ =~= Seq::<u8>::new((i + 1) as nat, |j: int| 0u8));
        }
        i = i + 1;
    }
    v
}

} // verus!
