//! The raw-wire command dispatcher: every opcode of the table answered with
//! its exact action trace, and a fatal halt on anything else.

use rawwire::action::Action;
use rawwire::device::Device;
use rawwire::device::Event;
use rawwire::device::State;

fn raw_device() -> Device {
    let mut d = Device::new();
    let out = d.step(Event::Byte(0x05));
    assert_eq!(
        out,
        vec![
            Action::Emit(0x52),
            Action::Emit(0x41),
            Action::Emit(0x57),
            Action::Emit(0x31),
        ]
    );
    d
}

#[test]
fn reannounce_sends_raw_banner_and_stays() {
    let mut d = raw_device();
    let out = d.step(Event::Byte(0x01));
    assert_eq!(
        out,
        vec![
            Action::Emit(0x52),
            Action::Emit(0x41),
            Action::Emit(0x57),
            Action::Emit(0x31),
        ]
    );
    assert_eq!(d.state, State::RawWire);
}

#[test]
fn single_clock_pulse_acknowledged() {
    let mut d = raw_device();
    let out = d.step(Event::Byte(0x09));
    assert_eq!(
        out,
        vec![
            Action::SetClock(true),
            Action::DelayUs,
            Action::SetClock(false),
            Action::DelayUs,
            Action::Emit(0x01),
        ]
    );
    assert_eq!(d.state, State::RawWire);
}

#[test]
fn set_clock_low_twice_is_idempotent() {
    let mut d = raw_device();
    for _ in 0..2 {
        let out = d.step(Event::Byte(0x0A));
        assert_eq!(out, vec![Action::SetClock(false), Action::Emit(0x01)]);
        assert_eq!(d.state, State::RawWire);
    }
}

#[test]
fn set_clock_high_twice_is_idempotent() {
    let mut d = raw_device();
    for _ in 0..2 {
        let out = d.step(Event::Byte(0x0B));
        assert_eq!(out, vec![Action::SetClock(true), Action::Emit(0x01)]);
    }
}

#[test]
fn set_data_low_twice_is_idempotent() {
    let mut d = raw_device();
    for _ in 0..2 {
        let out = d.step(Event::Byte(0x0C));
        assert_eq!(out, vec![Action::SetData(false), Action::Emit(0x01)]);
    }
}

#[test]
fn set_data_high_twice_is_idempotent() {
    let mut d = raw_device();
    for _ in 0..2 {
        let out = d.step(Event::Byte(0x0D));
        assert_eq!(out, vec![Action::SetData(true), Action::Emit(0x01)]);
    }
}

#[test]
fn bulk_pulses_pulse_n_times_with_one_ack() {
    // Opcode 0x20 | (N - 1) for N = 4.
    let mut d = raw_device();
    let out = d.step(Event::Byte(0x23));
    let rising = out
        .iter()
        .filter(|a| **a == Action::SetClock(true))
        .count();
    let falling = out
        .iter()
        .filter(|a| **a == Action::SetClock(false))
        .count();
    let acks = out
        .iter()
        .filter(|a| matches!(a, Action::Emit(_)))
        .count();
    assert_eq!(rising, 4);
    assert_eq!(falling, 4);
    assert_eq!(acks, 1);
    assert_eq!(out.last(), Some(&Action::Emit(0x01)));
    assert_eq!(d.state, State::RawWire);
}

#[test]
fn bulk_pulses_smallest_and_largest_count() {
    let mut d = raw_device();
    let out = d.step(Event::Byte(0x20));
    assert_eq!(
        out,
        vec![
            Action::SetClock(true),
            Action::DelayUs,
            Action::SetClock(false),
            Action::DelayUs,
            Action::Emit(0x01),
        ]
    );
    let out = d.step(Event::Byte(0x2F));
    let rising = out
        .iter()
        .filter(|a| **a == Action::SetClock(true))
        .count();
    assert_eq!(rising, 16);
    assert_eq!(out.last(), Some(&Action::Emit(0x01)));
}

#[test]
fn configuration_opcodes_are_acknowledged_no_ops() {
    let mut d = raw_device();
    for cmd in [0x40u8, 0x4F, 0x60, 0x6A, 0x80, 0x8F] {
        let out = d.step(Event::Byte(cmd));
        assert_eq!(out, vec![Action::Emit(0x01)]);
        assert_eq!(d.state, State::RawWire);
    }
}

#[test]
fn mode_entry_byte_inside_raw_wire_is_fatal() {
    let mut d = raw_device();
    let out = d.step(Event::Byte(0x05));
    assert_eq!(out, Vec::new());
    assert_eq!(d.state, State::Halted);
}

#[test]
fn unknown_opcodes_halt_the_device() {
    for cmd in [0x02u8, 0x08, 0x0E, 0x30, 0x3F, 0x50, 0x70, 0x90, 0xAA, 0xFF] {
        let mut d = raw_device();
        let out = d.step(Event::Byte(cmd));
        assert_eq!(out, Vec::new());
        assert_eq!(d.state, State::Halted);
    }
}

#[test]
fn halted_device_stops_responding() {
    let mut d = raw_device();
    d.step(Event::Byte(0xFF));
    assert_eq!(d.state, State::Halted);
    // Nothing wakes it again: not the exit byte, not the handshake, nothing.
    assert_eq!(d.step(Event::Byte(0x00)), Vec::new());
    assert_eq!(d.step(Event::Byte(0x01)), Vec::new());
    for _ in 0..20 {
        assert_eq!(d.step(Event::Byte(0x00)), Vec::new());
    }
    assert_eq!(d.step(Event::Samples(vec![true])), Vec::new());
    assert_eq!(d.state, State::Halted);
}
