use nescore::emulator::Emulator;
use nescore::input::{EventType, Input, InputEvent, InputResult};
use nescore::interrupt::{dispatch, Interrupt, StepResult};
use nescore::mapper::SharedMapper;
use nescore::memmap::MemMap;

fn step_result(vblank_nmi: bool, scanline_irq: bool, new_frame: bool) -> StepResult {
    StepResult { vblank_nmi, scanline_irq, new_frame }
}

fn make_emulator() -> Emulator {
    let mapper = SharedMapper::new(vec![0xAA, 0xBB, 0xCC, 0xDD], vec![0x11, 0x22]);
    let mem = MemMap::new(Input::new(), mapper);
    Emulator::new(mem)
}

fn ev(t: EventType, active: bool) -> InputEvent {
    InputEvent { event_type: t, active }
}

#[test]
fn clock_accumulates_instruction_costs() {
    let mut emu = make_emulator();
    assert_eq!(emu.cycle_count(), 0);
    let quiet = step_result(false, false, false);
    let costs = [3u32, 5, 2, 7];
    let mut last = 0u64;
    for c in costs {
        let out = emu.step(c, quiet);
        assert!(emu.cycle_count() >= last);
        assert_eq!(out.cycles_after, emu.cycle_count());
        last = emu.cycle_count();
    }
    assert_eq!(emu.cycle_count(), 17);
}

#[test]
fn nmi_outranks_irq_even_when_both_hold() {
    assert_eq!(dispatch(step_result(true, true, false)), Interrupt::Nmi);
    assert_eq!(dispatch(step_result(true, false, false)), Interrupt::Nmi);
}

#[test]
fn irq_fires_only_without_nmi() {
    assert_eq!(dispatch(step_result(false, true, false)), Interrupt::Irq);
    assert_eq!(dispatch(step_result(false, false, false)), Interrupt::NoInterrupt);
}

#[test]
fn step_reports_the_dispatch_ladder() {
    let mut emu = make_emulator();
    assert_eq!(emu.step(2, step_result(true, true, false)).dispatch, Interrupt::Nmi);
    assert_eq!(emu.step(2, step_result(false, true, false)).dispatch, Interrupt::Irq);
    assert_eq!(emu.step(2, step_result(false, false, false)).dispatch, Interrupt::NoInterrupt);
}

#[test]
fn one_frame_boundary_means_one_composite_flush_and_consumption() {
    let mut emu = make_emulator();
    emu.queue_input(ev(EventType::Save, true));
    let outs = [
        emu.step(4, step_result(false, false, true)),
        emu.step(4, step_result(false, false, false)),
        emu.step(4, step_result(false, false, false)),
    ];
    let composites = outs.iter().filter(|o| o.composite).count();
    let flushes = outs.iter().filter(|o| o.flush_audio).count();
    let controls = outs.iter().filter(|o| o.control != InputResult::Continue).count();
    assert_eq!(composites, 1);
    assert_eq!(flushes, 1);
    assert_eq!(controls, 1);
    assert_eq!(outs[0].control, InputResult::SaveState);
}

#[test]
fn frame_boundary_drains_queued_buttons() {
    let mut emu = make_emulator();
    emu.queue_input(ev(EventType::Right, true));
    emu.queue_input(ev(EventType::Quit, true));
    let out = emu.step(1, step_result(false, false, true));
    assert_eq!(out.control, InputResult::Quit);
    assert!(emu.mem.input.gamepad_0.right);
    // the queue was consumed: the next frame sees nothing
    let out2 = emu.step(1, step_result(false, false, true));
    assert_eq!(out2.control, InputResult::Continue);
}

#[test]
fn synchronous_input_matches_event_protocol() {
    let mut emu = make_emulator();
    assert_eq!(emu.input(ev(EventType::Right, true)), InputResult::Continue);
    assert!(emu.mem.input.gamepad_0.right);
    assert_eq!(emu.input(ev(EventType::Right, false)), InputResult::Continue);
    assert!(!emu.mem.input.gamepad_0.right);
    let before = emu.mem.input.gamepad_0;
    assert_eq!(emu.input(ev(EventType::Quit, true)), InputResult::Quit);
    assert_eq!(emu.mem.input.gamepad_0, before);
}

#[test]
fn save_load_round_trip_restores_the_machine() {
    let mut emu = make_emulator();
    // reach a mid-run state: clock advanced, buttons held, memory touched
    emu.step(7, step_result(false, false, false));
    emu.step(9, step_result(true, false, true));
    emu.input(ev(EventType::A, true));
    emu.input(ev(EventType::Up, true));
    emu.mem.write_byte(0x0005, 0x42);
    emu.mem.write_byte(0x2001, 0x17);
    emu.mem.write_byte(0x4002, 0x99);
    emu.mem.write_byte(0x4019, 0x5A);
    let blob = emu.serialize();

    let mut other = make_emulator();
    other.deserialize(&blob).unwrap();
    assert_eq!(other.cycle_count(), 16);
    assert_eq!(other.mem.input.gamepad_0, emu.mem.input.gamepad_0);
    assert_eq!(other.mem.read_byte(0x0005), 0x42);
    assert_eq!(other.mem.read_byte(0x2001), 0x17);
    assert_eq!(other.mem.read_byte(0x4002), 0x99);
    assert_eq!(other.mem.read_byte(0x4019), 0x5A);
    // and the round trip reproduces the identical blob
    assert_eq!(other.serialize(), blob);
}

#[test]
fn failed_load_leaves_state_unmutated() {
    let mut emu = make_emulator();
    emu.step(5, step_result(false, false, false));
    emu.input(ev(EventType::B, true));
    let before_clock = emu.cycle_count();
    let before_pad = emu.mem.input.gamepad_0;

    assert!(emu.deserialize(&vec![1, 2, 3]).is_err());
    let mut truncated = emu.serialize();
    truncated.pop();
    assert!(emu.deserialize(&truncated).is_err());

    assert_eq!(emu.cycle_count(), before_clock);
    assert_eq!(emu.mem.input.gamepad_0, before_pad);
}

#[test]
fn memory_map_routes_every_range() {
    let mut emu = make_emulator();
    // RAM, mirrored through the low range
    emu.mem.write_byte(0x0000, 0x01);
    assert_eq!(emu.mem.read_byte(0x0800), 0x01);
    // picture-unit registers, mirrored every eight bytes
    emu.mem.write_byte(0x2002, 0x02);
    assert_eq!(emu.mem.read_byte(0x200A), 0x02);
    // audio-unit registers
    emu.mem.write_byte(0x4015, 0x03);
    assert_eq!(emu.mem.read_byte(0x4015), 0x03);
    // cartridge space reads the mapper's bytes
    assert_eq!(emu.mem.read_byte(0x4018), 0xAA);
    assert_eq!(emu.mem.read_byte(0x401B), 0xDD);
    // past the cartridge's end: open bus
    assert_eq!(emu.mem.read_byte(0x401C), 0x00);
}

#[test]
fn input_port_reads_packed_gamepad() {
    let mut emu = make_emulator();
    emu.input(ev(EventType::A, true));
    emu.input(ev(EventType::Start, true));
    // A is bit 0, Start is bit 3
    assert_eq!(emu.mem.read_byte(0x4016), 0b0000_1001);
    assert_eq!(emu.mem.read_byte(0x4017), 0);
}

#[test]
fn mapper_guard_fails_fast_on_reentrant_operation() {
    let mut mapper = SharedMapper::new(vec![0u8; 4], vec![]);
    assert!(mapper.begin_op().is_ok());
    // a second in-flight operation is refused, state intact
    assert!(mapper.begin_op().is_err());
    mapper.prg_write(0, 0x7F);
    mapper.end_op();
    assert_eq!(mapper.prg_read(0), 0x7F);
    assert!(mapper.begin_op().is_ok());
    mapper.end_op();
}
