use nescore::codec::{pack_gamepad, push_u64_le, read_u64_le, unpack_gamepad};
use nescore::input::GamepadState;
use nescore::timer::FrameTimer;

#[test]
fn u64_le_exact_bytes() {
    let mut out: Vec<u8> = Vec::new();
    push_u64_le(&mut out, 0x0123_4567_89AB_CDEF);
    assert_eq!(out, vec![0xEF, 0xCD, 0xAB, 0x89, 0x67, 0x45, 0x23, 0x01]);
    assert_eq!(read_u64_le(&out, 0), 0x0123_4567_89AB_CDEF);
}

#[test]
fn u64_le_round_trips_edge_values() {
    for x in [0u64, 1, 0xFF, 0x100, u64::MAX, u64::MAX - 1] {
        let mut out: Vec<u8> = Vec::new();
        push_u64_le(&mut out, x);
        assert_eq!(read_u64_le(&out, 0), x);
    }
}

#[test]
fn gamepad_packs_in_hardware_order() {
    let mut g = GamepadState::new();
    g.a = true;
    assert_eq!(pack_gamepad(&g), 0x01);
    g.a = false;
    g.right = true;
    assert_eq!(pack_gamepad(&g), 0x80);
    g.b = true;
    g.select = true;
    g.start = true;
    g.up = true;
    g.down = true;
    g.left = true;
    g.a = true;
    assert_eq!(pack_gamepad(&g), 0xFF);
}

#[test]
fn gamepad_pack_unpack_round_trips() {
    for bits in 0u16..=0xFF {
        let g = unpack_gamepad(bits as u8);
        assert_eq!(pack_gamepad(&g), bits as u8);
    }
}

#[test]
fn frame_timer_counts_within_a_window_and_reports_on_roll() {
    let mut t = FrameTimer { last_time_ns: 0, frames: 0 };
    assert_eq!(t.record_frame(10), None);
    assert_eq!(t.record_frame(20), None);
    assert_eq!(t.frames, 2);
    // one second after the window opened: report and restart
    let report = t.record_frame(1_000_000_000);
    assert_eq!(report, Some(2));
    assert_eq!(t.frames, 0);
    assert_eq!(t.last_time_ns, 1_000_000_000);
    assert_eq!(t.record_frame(1_500_000_000), None);
    assert_eq!(t.record_frame(2_000_000_001), Some(1));
}
