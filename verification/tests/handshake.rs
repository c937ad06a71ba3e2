//! The idle handshake: twenty consecutive nulls force the `BBIO1` banner,
//! other bytes are silently ignored and never disturb the counter, and
//! `0x05` enters raw-wire mode behind a `RAW1` banner.

use rawwire::action::Action;
use rawwire::device::Device;
use rawwire::device::Event;
use rawwire::device::State;

fn bbio_banner() -> Vec<Action> {
    vec![
        Action::Emit(0x42),
        Action::Emit(0x42),
        Action::Emit(0x49),
        Action::Emit(0x4F),
        Action::Emit(0x31),
    ]
}

fn raw_banner() -> Vec<Action> {
    vec![
        Action::Emit(0x52),
        Action::Emit(0x41),
        Action::Emit(0x57),
        Action::Emit(0x31),
    ]
}

#[test]
fn nineteen_nulls_stay_silent() {
    let mut d = Device::new();
    for _ in 0..19 {
        let out = d.step(Event::Byte(0x00));
        assert_eq!(out, Vec::new());
    }
    assert_eq!(d.state, State::Idle);
    assert_eq!(d.count, 19);
}

#[test]
fn twentieth_null_yields_banner() {
    let mut d = Device::new();
    for _ in 0..19 {
        assert_eq!(d.step(Event::Byte(0x00)), Vec::new());
    }
    let out = d.step(Event::Byte(0x00));
    assert_eq!(out, bbio_banner());
    assert_eq!(d.count, 0);
}

#[test]
fn handshake_repeats_after_reset() {
    let mut d = Device::new();
    let mut banners = 0;
    for _ in 0..40 {
        let out = d.step(Event::Byte(0x00));
        if !out.is_empty() {
            assert_eq!(out, bbio_banner());
            banners += 1;
        }
    }
    assert_eq!(banners, 2);
    assert_eq!(d.count, 0);
}

#[test]
fn other_bytes_are_ignored_and_do_not_touch_counter() {
    let mut d = Device::new();
    for _ in 0..19 {
        assert_eq!(d.step(Event::Byte(0x00)), Vec::new());
    }
    // A burst of unrelated bytes: all silently discarded, counter untouched.
    for b in [0x01u8, 0x37, 0x80, 0xFF, 0x42] {
        assert_eq!(d.step(Event::Byte(b)), Vec::new());
        assert_eq!(d.count, 19);
        assert_eq!(d.state, State::Idle);
    }
    // The twentieth null still completes the handshake.
    assert_eq!(d.step(Event::Byte(0x00)), bbio_banner());
    assert_eq!(d.count, 0);
}

#[test]
fn mode_entry_byte_yields_raw_banner() {
    let mut d = Device::new();
    let out = d.step(Event::Byte(0x05));
    assert_eq!(out, raw_banner());
    assert_eq!(d.state, State::RawWire);
}

#[test]
fn counter_survives_a_raw_wire_session() {
    let mut d = Device::new();
    for _ in 0..7 {
        d.step(Event::Byte(0x00));
    }
    assert_eq!(d.count, 7);
    d.step(Event::Byte(0x05));
    assert_eq!(d.state, State::RawWire);
    assert_eq!(d.step(Event::Byte(0x00)), bbio_banner());
    assert_eq!(d.state, State::Idle);
    assert_eq!(d.count, 7);
}

#[test]
fn exit_then_handshake_works_again() {
    let mut d = Device::new();
    d.step(Event::Byte(0x05));
    let out = d.step(Event::Byte(0x00));
    assert_eq!(out, bbio_banner());
    assert_eq!(d.state, State::Idle);
    let mut banners = 0;
    for _ in 0..20 {
        if !d.step(Event::Byte(0x00)).is_empty() {
            banners += 1;
        }
    }
    assert_eq!(banners, 1);
}
