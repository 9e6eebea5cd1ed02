//! The top-level orchestrator: one deterministic stepping protocol over the
//! independently clocked subsystems. It owns the shared cycle clock, the
//! memory map and the frame-timing diagnostics, resolves each step's
//! interrupt conditions, assembles the frame-boundary actions, and exposes
//! the persisted-state hooks. The host executes instructions, renders,
//! plays audio and stores blobs; every decision in between is made — and
//! specified — here.

use vstd::prelude::*;
use crate::codec::{
    gamepad_bits, gamepad_from_bits, pack_gamepad, unpack_gamepad, push_bytes, push_u64_le,
    copy_range, read_u64_le, u64_le_bytes, u64_from_le,
};
use crate::input::{
    drain_gamepad, drain_result, apply_event, event_result, is_control, InputEvent, InputResult,
};
use crate::interrupt::{dispatch, dispatch_rule, Interrupt, StepResult};
use crate::mapper::SharedMapper;
use crate::memmap::MemMap;
use crate::timer::{fps_report, now_ns, timer_after, FrameTimer};

verus! {

/// Rejection of a malformed persisted-state blob: one that no run of the
/// emulator can have written. The failed load mutates nothing.
#[derive(Clone, Copy, PartialEq, Eq, Structural, Debug)]
pub struct LoadError {
}

/// Everything one step decides, handed back for the host to act on: the
/// clock value the audio unit steps against, the single interrupt to invoke,
/// and — on a frame boundary — the composite, the audio flush, the one
/// consumed control result, and the diagnostic frame-rate figure.
#[derive(Clone, Copy, PartialEq, Eq, Structural, Debug)]
pub struct StepOutcome {
    pub cycles_after: u64,
    pub dispatch: Interrupt,
    pub new_frame: bool,
    pub composite: bool,
    pub flush_audio: bool,
    pub control: InputResult,
    pub fps_report: Option<u64>,
}

/// The orchestrator: the memory map (with the input boundary and the shared
/// mapper inside), the one cycle clock, and the diagnostic frame timer.
pub struct Emulator {
    pub mem: MemMap,
    pub cycles: u64,
    pub timer: FrameTimer,
}

/// The sum of a sequence of per-instruction cycle costs.
pub open spec fn sum_costs(costs: Seq<u32>) -> int
    decreases costs.len(),
{
    if costs.len() == 0 {
        0
    } else {
        sum_costs(costs.drop_last()) + costs.last()
    }
}

/// The cycle clock after stepping through a sequence of instruction costs
/// from `start`, one `step` at a time.
pub open spec fn clock_after(start: u64, costs: Seq<u32>) -> int
    decreases costs.len(),
{
    if costs.len() == 0 {
        start as int
    } else {
        clock_after(start, costs.drop_last()) + costs.last()
    }
}

/// The cycle-clock law: over any sequence of steps the clock equals the
/// running sum of the per-instruction costs, and it never decreases — not at
/// the end only, but along every prefix of the run.
pub proof fn lemma_clock_running_sum(start: u64, costs: Seq<u32>)
    ensures
        clock_after(start, costs) == start + sum_costs(costs),
        clock_after(start, costs) >= start,
        forall|j: int|
            0 <= j < costs.len() ==> #[trigger] clock_after(start, costs.take(j)) <= clock_after(
                start,
                costs.take(j + 1),
            ),
    decreases costs.len(),
{
    if costs.len() > 0 {
        lemma_clock_running_sum(start, costs.drop_last());
        assert forall|j: int| 0 <= j < costs.len() - 1 implies #[trigger] clock_after(
            start,
            costs.take(j),
        ) <= clock_after(start, costs.take(j + 1)) by {
            assert(costs.drop_last().take(j) =~= costs.take(j));
            assert(costs.drop_last().take(j + 1) =~= costs.take(j + 1));
        }
        assert(costs.take(costs.len() - 1) =~= costs.drop_last());
        assert(costs.take(costs.len() as int) =~= costs);
    }
}

/// The serialized form of a machine state: cycle clock, packed gamepad, RAM,
/// the two register windows, then the mapper's two length-prefixed byte
/// windows. The pending input queue and the frame timer are transient and
/// deliberately absent.
pub open spec fn snapshot_bytes(e: Emulator) -> Seq<u8> {
    u64_le_bytes(e.cycles) + seq![gamepad_bits(e.mem.input.gamepad_0)] + e.mem.ram@
        + e.mem.ppu_regs@ + e.mem.apu_regs@ + u64_le_bytes(e.mem.mapper.prg_view().len() as u64)
        + e.mem.mapper.prg_view() + u64_le_bytes(e.mem.mapper.chr_view().len() as u64)
        + e.mem.mapper.chr_view()
}

/// The processor-visible cartridge length a blob declares.
pub open spec fn snap_prg_len(b: Seq<u8>) -> int {
    u64_from_le(b.subrange(2087, 2095)) as int
}

/// Whether a blob is a well-formed snapshot: long enough for the fixed
/// header, with both declared lengths consistent with the blob's own.
pub open spec fn snapshot_parses(b: Seq<u8>) -> bool {
    &&& b.len() >= 2103
    &&& snap_prg_len(b) <= b.len() - 2103
    &&& u64_from_le(b.subrange(2095 + snap_prg_len(b), 2103 + snap_prg_len(b))) == b.len() - 2103
        - snap_prg_len(b)
}

/// The cycle clock a snapshot restores.
pub open spec fn snap_cycles(b: Seq<u8>) -> u64 {
    u64_from_le(b.subrange(0, 8))
}

/// The gamepad a snapshot restores.
pub open spec fn snap_gamepad(b: Seq<u8>) -> crate::input::GamepadState {
    gamepad_from_bits(b[8])
}

/// The RAM contents a snapshot restores.
pub open spec fn snap_ram(b: Seq<u8>) -> Seq<u8> {
    b.subrange(9, 2057)
}

/// The picture-unit registers a snapshot restores.
pub open spec fn snap_ppu_regs(b: Seq<u8>) -> Seq<u8> {
    b.subrange(2057, 2065)
}

/// The audio-unit registers a snapshot restores.
pub open spec fn snap_apu_regs(b: Seq<u8>) -> Seq<u8> {
    b.subrange(2065, 2087)
}

/// The processor-visible cartridge bytes a snapshot restores.
pub open spec fn snap_prg(b: Seq<u8>) -> Seq<u8> {
    b.subrange(2095, 2095 + snap_prg_len(b))
}

/// The picture-unit-visible cartridge bytes a snapshot restores.
pub open spec fn snap_chr(b: Seq<u8>) -> Seq<u8> {
    b.subrange(2103 + snap_prg_len(b), b.len() as int)
}

impl Emulator {
    /// Well-formedness of the whole machine state.
    pub open spec fn wf(self) -> bool {
        self.mem.wf()
    }

    /// Builds the orchestrator around a pre-built memory map; the clock
    /// starts at zero and the frame timer resets.
    pub fn new(mem: MemMap) -> (e: Emulator)
        requires
            mem.wf(),
        ensures
            e.wf(),
            e.mem == mem,
            e.cycles == 0,
            e.timer == (FrameTimer { last_time_ns: 0, frames: 0 }),
    {
        Emulator { mem, cycles: 0, timer: FrameTimer::new() }
    }

    /// The shared cycle clock: the time base every subsystem steps against.
    pub fn cycle_count(&self) -> (cy: u64)
        ensures
            cy == self.cycles,
    {
        self.cycles
    }

    /// Advances the protocol by one processor instruction. The host has
    /// executed the instruction (`cost` cycles) and stepped the picture unit
    /// against the advanced clock (`ppu_result`); this call advances the
    /// clock by exactly that cost, resolves the interrupt ladder — NMI
    /// outranks IRQ, at most one dispatch — and, exactly when the step
    /// completed a frame, drains the pending input into the gamepad, yields
    /// the one control result, orders one composite and one audio flush,
    /// and updates the diagnostic timer (which gates nothing).
    pub fn step(&mut self, cost: u32, ppu_result: StepResult) -> (o: StepOutcome)
        requires
            old(self).wf(),
            old(self).cycles + cost <= u64::MAX,
        ensures
            final(self).wf(),
            final(self).cycles == old(self).cycles + cost,
            old(self).cycles <= final(self).cycles,
            o.cycles_after == final(self).cycles,
            o.dispatch == dispatch_rule(ppu_result),
            o.new_frame == ppu_result.new_frame,
            o.composite == ppu_result.new_frame,
            o.flush_audio == ppu_result.new_frame,
            final(self).mem.ram@ == old(self).mem.ram@,
            final(self).mem.ppu_regs@ == old(self).mem.ppu_regs@,
            final(self).mem.apu_regs@ == old(self).mem.apu_regs@,
            final(self).mem.mapper == old(self).mem.mapper,
            ppu_result.new_frame ==> o.control == drain_result(old(self).mem.input.pending@),
            ppu_result.new_frame ==> final(self).mem.input.gamepad_0 == drain_gamepad(
                old(self).mem.input.gamepad_0,
                old(self).mem.input.pending@,
            ),
            ppu_result.new_frame ==> final(self).mem.input.pending@ =~= Seq::<InputEvent>::empty(),
            ppu_result.new_frame ==> (exists|now: u64|
                final(self).timer == timer_after(old(self).timer, now) && o.fps_report
                    == fps_report(old(self).timer, now)),
            !ppu_result.new_frame ==> o.control == InputResult::Continue,
            !ppu_result.new_frame ==> final(self).mem.input == old(self).mem.input,
            !ppu_result.new_frame ==> final(self).timer == old(self).timer,
            !ppu_result.new_frame ==> o.fps_report is None,
    {
        self.cycles = self.cycles + (cost as u64);
        let fired = dispatch(ppu_result);
        if ppu_result.new_frame {
            let control = self.mem.input.check_input();
            let now = now_ns();
            let report = self.timer.record_frame(now);
            StepOutcome {
                cycles_after: self.cycles,
                dispatch: fired,
                new_frame: true,
                composite: true,
                flush_audio: true,
                control,
                fps_report: report,
            }
        } else {
            StepOutcome {
                cycles_after: self.cycles,
                dispatch: fired,
                new_frame: false,
                composite: false,
                flush_audio: false,
                control: InputResult::Continue,
                fps_report: None,
            }
        }
    }

    /// Feeds one discrete UI event, resolved the instant it arrives: a
    /// button-class event sets the matching gamepad flag to the event's
    /// `active` and yields `Continue`; a control-class event yields its
    /// command and mutates nothing. Callable at any point between steps.
    pub fn input(&mut self, ev: InputEvent) -> (r: InputResult)
        requires
            old(self).wf(),
        ensures
            final(self).wf(),
            final(self).mem.input.gamepad_0 == apply_event(old(self).mem.input.gamepad_0, ev),
            final(self).mem.input.pending@ == old(self).mem.input.pending@,
            r == event_result(ev),
            is_control(ev.event_type) ==> final(self).mem.input.gamepad_0 == old(
                self,
            ).mem.input.gamepad_0,
            final(self).cycles == old(self).cycles,
            final(self).timer == old(self).timer,
            final(self).mem.ram@ == old(self).mem.ram@,
            final(self).mem.ppu_regs@ == old(self).mem.ppu_regs@,
            final(self).mem.apu_regs@ == old(self).mem.apu_regs@,
            final(self).mem.mapper == old(self).mem.mapper,
    {
        self.mem.input.handle_event(ev)
    }

    /// Buffers one event from the cross-thread boundary; it will be
    /// resolved at the next frame boundary's drain.
    pub fn queue_input(&mut self, ev: InputEvent)
        requires
            old(self).wf(),
        ensures
            final(self).wf(),
            final(self).mem.input.pending@ == old(self).mem.input.pending@.push(ev),
            final(self).mem.input.gamepad_0 == old(self).mem.input.gamepad_0,
            final(self).cycles == old(self).cycles,
            final(self).timer == old(self).timer,
            final(self).mem.ram@ == old(self).mem.ram@,
            final(self).mem.ppu_regs@ == old(self).mem.ppu_regs@,
            final(self).mem.apu_regs@ == old(self).mem.apu_regs@,
            final(self).mem.mapper == old(self).mem.mapper,
    {
        self.mem.input.queue_event(ev);
    }

    /// Writes the machine state into one opaque blob; storing it is the
    /// host's concern.
    pub fn serialize(&self) -> (out: Vec<u8>)
        requires
            self.wf(),
        ensures
            out@ == snapshot_bytes(*self),
    {
        let mut out: Vec<u8> = Vec::new();
        push_u64_le(&mut out, self.cycles);
        out.push(pack_gamepad(&self.mem.input.gamepad_0));
        push_bytes(&mut out, &self.mem.ram);
        push_bytes(&mut out, &self.mem.ppu_regs);
        push_bytes(&mut out, &self.mem.apu_regs);
        let prg = self.mem.mapper.prg_ref();
        let chr = self.mem.mapper.chr_ref();
        push_u64_le(&mut out, prg.len() as u64);
        push_bytes(&mut out, prg);
        push_u64_le(&mut out, chr.len() as u64);
        push_bytes(&mut out, chr);
        proof {
            assert(out@ =~= snapshot_bytes(*self));
        }
        out
    }

    /// Restores the machine state from a blob. Succeeds exactly on
    /// well-formed snapshots, restoring the cycle clock, the gamepad and
    /// every subsystem-visible byte; a malformed blob is rejected with the
    /// state left entirely unmutated. The pending queue and the diagnostic
    /// timer are transient and survive as they were.
    pub fn deserialize(&mut self, b: &Vec<u8>) -> (r: Result<(), LoadError>)
        requires
            old(self).wf(),
        ensures
            final(self).wf(),
            r is Ok <==> snapshot_parses(b@),
            r is Err ==> *final(self) == *old(self),
            r is Ok ==> final(self).cycles == snap_cycles(b@),
            r is Ok ==> final(self).mem.input.gamepad_0 == snap_gamepad(b@),
            r is Ok ==> final(self).mem.ram@ == snap_ram(b@),
            r is Ok ==> final(self).mem.ppu_regs@ == snap_ppu_regs(b@),
            r is Ok ==> final(self).mem.apu_regs@ == snap_apu_regs(b@),
            r is Ok ==> final(self).mem.mapper.prg_view() == snap_prg(b@),
            r is Ok ==> final(self).mem.mapper.chr_view() == snap_chr(b@),
            final(self).mem.input.pending@ == old(self).mem.input.pending@,
            final(self).timer == old(self).timer,
    {
        let blen = b.len();
        if blen < 2103 {
            return Err(LoadError {  });
        }
        let prg64 = read_u64_le(b, 2087);
        if prg64 > (blen - 2103) as u64 {
            return Err(LoadError {  });
        }
        let prg_len = prg64 as usize;
        let chr64 = read_u64_le(b, 2095 + prg_len);
        if chr64 != (blen - 2103 - prg_len) as u64 {
            return Err(LoadError {  });
        }
        let cycles = read_u64_le(b, 0);
        let gp = unpack_gamepad(b[8]);
        let ram = copy_range(b, 9, 2048);
        let ppu_regs = copy_range(b, 2057, 8);
        let apu_regs = copy_range(b, 2065, 22);
        let prg = copy_range(b, 2095, prg_len);
        let chr = copy_range(b, 2103 + prg_len, blen - 2103 - prg_len);
        self.cycles = cycles;
        self.mem.ram = ram;
        self.mem.ppu_regs = ppu_regs;
        self.mem.apu_regs = apu_regs;
        self.mem.input.gamepad_0 = gp;
        self.mem.mapper = SharedMapper::new(prg, chr);
        Ok(())
    }
}

/// The save/load round-trip law: every well-formed machine state's blob
/// parses, and restores the identical cycle clock, gamepad and
/// subsystem-visible state.
pub proof fn lemma_snapshot_round_trip(e: Emulator)
    requires
        e.wf(),
    ensures
        snapshot_parses(snapshot_bytes(e)),
        snap_cycles(snapshot_bytes(e)) == e.cycles,
        snap_gamepad(snapshot_bytes(e)) == e.mem.input.gamepad_0,
        snap_ram(snapshot_bytes(e)) == e.mem.ram@,
        snap_ppu_regs(snapshot_bytes(e)) == e.mem.ppu_regs@,
        snap_apu_regs(snapshot_bytes(e)) == e.mem.apu_regs@,
        snap_prg(snapshot_bytes(e)) == e.mem.mapper.prg_view(),
        snap_chr(snapshot_bytes(e)) == e.mem.mapper.chr_view(),
{
    let b = snapshot_bytes(e);
    let prg = e.mem.mapper.prg_view();
    let chr = e.mem.mapper.chr_view();
    let pl = prg.len() as int;
    let cl = chr.len() as int;
    assert(b.len() == 2103 + pl + cl);
    assert(b.subrange(0, 8) =~= u64_le_bytes(e.cycles));
    crate::codec::lemma_u64_le_round_trip(e.cycles);
    assert(b[8] == gamepad_bits(e.mem.input.gamepad_0));
    crate::codec::lemma_gamepad_bits_round_trip(e.mem.input.gamepad_0);
    assert(b.subrange(9, 2057) =~= e.mem.ram@);
    assert(b.subrange(2057, 2065) =~= e.mem.ppu_regs@);
    assert(b.subrange(2065, 2087) =~= e.mem.apu_regs@);
    assert(b.subrange(2087, 2095) =~= u64_le_bytes(prg.len() as u64));
    crate::codec::lemma_u64_le_round_trip(prg.len() as u64);
    assert(snap_prg_len(b) == pl);
    assert(b.subrange(2095, 2095 + pl) =~= prg);
    assert(b.subrange(2095 + pl, 2103 + pl) =~= u64_le_bytes(chr.len() as u64));
    crate::codec::lemma_u64_le_round_trip(chr.len() as u64);
    assert(b.subrange(2103 + pl, b.len() as int) =~= chr);
}

} // verus!
