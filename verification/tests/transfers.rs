//! The bit-banged transfers: bulk writes in lock step, byte reads, single
//! samples, and the write/read round trip over concrete bytes.

use rawwire::action::Action;
use rawwire::bitbang::assemble_byte;
use rawwire::bitbang::read_byte_actions;
use rawwire::bitbang::write_byte_actions;
use rawwire::device::Device;
use rawwire::device::Event;
use rawwire::device::State;

fn raw_device() -> Device {
    let mut d = Device::new();
    d.step(Event::Byte(0x05));
    assert_eq!(d.state, State::RawWire);
    d
}

/// The bits of `b`, least significant first.
fn bits_lsb_first(b: u8) -> Vec<bool> {
    (0..8).map(|i| (b >> i) & 1 == 1).collect()
}

/// The levels a trace drives onto the data line, in order.
fn driven_levels(trace: &[Action]) -> Vec<bool> {
    trace
        .iter()
        .filter_map(|a| match a {
            Action::SetData(level) => Some(*level),
            _ => None,
        })
        .collect()
}

#[test]
fn write_byte_trace_has_exact_shape() {
    let out = write_byte_actions(0x01);
    assert_eq!(out.len(), 48);
    for i in 0..8 {
        let expected_level = i == 0;
        assert_eq!(out[6 * i], Action::SetData(expected_level));
        assert_eq!(out[6 * i + 1], Action::DelayUs);
        assert_eq!(out[6 * i + 2], Action::SetClock(true));
        assert_eq!(out[6 * i + 3], Action::DelayUs);
        assert_eq!(out[6 * i + 4], Action::SetClock(false));
        assert_eq!(out[6 * i + 5], Action::DelayUs);
    }
}

#[test]
fn write_byte_drives_bits_lsb_first() {
    for b in [0x00u8, 0x01, 0x5A, 0x80, 0xA5, 0xFF] {
        let out = write_byte_actions(b);
        assert_eq!(driven_levels(&out), bits_lsb_first(b));
    }
}

#[test]
fn read_byte_trace_has_exact_shape() {
    let out = read_byte_actions();
    assert_eq!(out.len(), 41);
    assert_eq!(out[0], Action::SetData(true));
    for i in 0..8 {
        assert_eq!(out[1 + 5 * i], Action::SetClock(true));
        assert_eq!(out[2 + 5 * i], Action::DelayUs);
        assert_eq!(out[3 + 5 * i], Action::Sample);
        assert_eq!(out[4 + 5 * i], Action::SetClock(false));
        assert_eq!(out[5 + 5 * i], Action::DelayUs);
    }
}

#[test]
fn assemble_byte_reconstructs_from_lsb_first_levels() {
    assert_eq!(assemble_byte(&bits_lsb_first(0x00)), 0x00);
    assert_eq!(assemble_byte(&bits_lsb_first(0x01)), 0x01);
    assert_eq!(assemble_byte(&bits_lsb_first(0x80)), 0x80);
    assert_eq!(assemble_byte(&bits_lsb_first(0xC3)), 0xC3);
    assert_eq!(assemble_byte(&bits_lsb_first(0xFF)), 0xFF);
}

#[test]
fn write_read_round_trip_is_identity() {
    // A peer replaying exactly the levels a write drove reproduces the byte.
    for b in 0..=255u8 {
        let trace = write_byte_actions(b);
        assert_eq!(assemble_byte(&driven_levels(&trace)), b);
    }
}

#[test]
fn bulk_write_runs_in_lock_step() {
    // Opcode 0x10 | (N - 1) for N = 2.
    let mut d = raw_device();
    let out = d.step(Event::Byte(0x11));
    assert_eq!(out, vec![Action::Emit(0x01)]);
    assert_eq!(d.state, State::BulkWrite { remaining: 2 });

    let out = d.step(Event::Byte(0xA5));
    assert_eq!(out.len(), 49);
    assert_eq!(driven_levels(&out), bits_lsb_first(0xA5));
    assert_eq!(out.last(), Some(&Action::Emit(0x01)));
    assert_eq!(d.state, State::BulkWrite { remaining: 1 });

    let out = d.step(Event::Byte(0x3C));
    assert_eq!(driven_levels(&out), bits_lsb_first(0x3C));
    assert_eq!(out.last(), Some(&Action::Emit(0x01)));
    assert_eq!(d.state, State::RawWire);

    // Back in raw-wire mode: the re-announce command answers again.
    let out = d.step(Event::Byte(0x01));
    assert_eq!(
        out,
        vec![
            Action::Emit(0x52),
            Action::Emit(0x41),
            Action::Emit(0x57),
            Action::Emit(0x31),
        ]
    );
}

#[test]
fn bulk_write_largest_transfer() {
    // Opcode 0x1F: sixteen bytes, one ack up front and one per byte.
    let mut d = raw_device();
    assert_eq!(d.step(Event::Byte(0x1F)), vec![Action::Emit(0x01)]);
    for i in 0..16u8 {
        let out = d.step(Event::Byte(i));
        assert_eq!(driven_levels(&out), bits_lsb_first(i));
        assert_eq!(out.last(), Some(&Action::Emit(0x01)));
    }
    assert_eq!(d.state, State::RawWire);
}

#[test]
fn read_command_schedules_and_assembles() {
    let mut d = raw_device();
    let out = d.step(Event::Byte(0x06));
    assert_eq!(out, read_byte_actions());
    assert_eq!(d.state, State::AwaitReadBits);

    // The shell sampled the bits of 0xC3, least significant first.
    let out = d.step(Event::Samples(bits_lsb_first(0xC3)));
    assert_eq!(out, vec![Action::Emit(0xC3)]);
    assert_eq!(d.state, State::RawWire);
}

#[test]
fn sample_command_reports_line_level() {
    let mut d = raw_device();
    let out = d.step(Event::Byte(0x07));
    assert_eq!(
        out,
        vec![
            Action::SetClock(true),
            Action::SetData(true),
            Action::DelayUs,
            Action::SetClock(false),
            Action::DelayUs,
            Action::Sample,
        ]
    );
    assert_eq!(d.state, State::AwaitSampleBit);
    let out = d.step(Event::Samples(vec![true]));
    assert_eq!(out, vec![Action::Emit(0x01)]);
    assert_eq!(d.state, State::RawWire);

    let out = d.step(Event::Byte(0x07));
    assert_eq!(out.len(), 6);
    let out = d.step(Event::Samples(vec![false]));
    assert_eq!(out, vec![Action::Emit(0x00)]);
    assert_eq!(d.state, State::RawWire);
}
