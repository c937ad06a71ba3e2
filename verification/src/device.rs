//! The command-driven state machine of the adapter: the idle handshake, the
//! raw-wire command dispatcher, and the lock-step bulk and read transfers.
//!
//! The machine consumes one [`Event`] at a time — a byte received on the
//! serial link, or the data-line levels sampled for it by the shell — and
//! returns the exact trace of hardware [`Action`]s that answers it. Its
//! whole behaviour is the spec function [`step_spec`]; the executable
//! [`Device::step`] is proved to follow it on every input.

use vstd::prelude::*;

use crate::action::ACK;
use crate::action::Action;
use crate::action::banner_bbio;
use crate::action::banner_bbio_actions;
use crate::action::banner_raw;
use crate::action::banner_raw_actions;
use crate::action::clock_pulse;
use crate::action::pulse_train;
use crate::action::pulse_train_actions;
use crate::bitbang::assemble_byte;
use crate::bitbang::byte_from_bits;
use crate::bitbang::read_byte_actions;
use crate::bitbang::read_byte_trace;
use crate::bitbang::write_byte_actions;
use crate::bitbang::write_byte_trace;

verus! {

/// How many consecutive `0x00` bytes, received while idle, force the
/// `BBIO1` banner.
pub const HANDSHAKE_THRESHOLD: u8 = 20;

/// Where the machine stands between two input events.
#[derive(Clone, Copy, Debug, PartialEq, Eq, Structural)]
pub enum State {
    /// Waiting for the handshake or the mode-entry byte; anything else is
    /// silently discarded.
    Idle,
    /// Inside raw-wire mode, waiting for the next command byte.
    RawWire,
    /// Inside a bulk write transfer: `remaining` more data bytes (between 1
    /// and 16) are owed by the host, each answered with one acknowledgment.
    BulkWrite { remaining: u8 },
    /// A read transfer was scheduled; waiting for the eight levels the shell
    /// sampled while running it.
    AwaitReadBits,
    /// A single data-line sample was scheduled; waiting for the one level
    /// the shell sampled.
    AwaitSampleBit,
    /// A fatal decode fault: the machine no longer reacts to anything and
    /// only a hardware reset recovers the device.
    Halted,
}

/// The whole state of the adapter: the current [`State`] and the idle
/// handshake counter. The counter counts consecutive `0x00` bytes received
/// while idle; by design it is untouched by any other byte and keeps its
/// value across a raw-wire session.
#[derive(Clone, Copy, Debug, PartialEq, Eq, Structural)]
#[verifier::ext_equal]
pub struct Device {
    /// Where the machine stands.
    pub state: State,
    /// The idle handshake counter, always below [`HANDSHAKE_THRESHOLD`].
    pub count: u8,
}

/// One input to the machine. The shell hands it a `Byte` for every byte
/// received on the serial link, and a `Samples` with the levels read at the
/// `Sample` points of the trace the previous step returned.
#[derive(Debug)]
pub enum Event {
    /// One byte received from the host.
    Byte(u8),
    /// The data-line levels sampled while performing the previous trace, in
    /// trace order.
    Samples(Vec<bool>),
}

/// The trace answering the sample-once command: pulse the clock with the
/// data line released, and sample the line once.
pub open spec fn sample_once_trace() -> Seq<Action> {
    seq![
        Action::SetClock(true),
        Action::SetData(true),
        Action::DelayUs,
        Action::SetClock(false),
        Action::DelayUs,
        Action::Sample,
    ]
}

/// Whether a byte matches some entry of the raw-wire command table. A byte
/// that matches none halts the device.
pub open spec fn is_raw_opcode(cmd: u8) -> bool {
    ||| cmd == 0x00
    ||| cmd == 0x01
    ||| cmd == 0x06
    ||| cmd == 0x07
    ||| cmd == 0x09
    ||| cmd & 0xFE == 0x0A
    ||| cmd & 0xFE == 0x0C
    ||| cmd & 0xF0 == 0x10
    ||| cmd & 0xF0 == 0x20
    ||| cmd & 0xF0 == 0x40
    ||| cmd & 0xF0 == 0x60
    ||| cmd & 0xF0 == 0x80
}

impl Device {
    /// The freshly powered-up adapter: idle, with the handshake counter at
    /// zero.
    pub open spec fn initial() -> Device {
        Device { state: State::Idle, count: 0 }
    }

    /// Well-formedness: the handshake counter sits below the threshold, and
    /// a bulk transfer never owes more than sixteen bytes. Established by
    /// [`Device::new`] and preserved by every step.
    pub open spec fn wf(self) -> bool {
        &&& self.count < HANDSHAKE_THRESHOLD
        &&& match self.state {
            State::BulkWrite { remaining } => 1 <= remaining <= 16,
            _ => true,
        }
    }
}

/// One idle-mode step on a received byte. A `0x00` advances the handshake
/// counter and, on the twentieth consecutive one, answers `BBIO1` and resets
/// the counter; a `0x05` answers `RAW1` and enters raw-wire mode; any other
/// byte is silently discarded and leaves the counter alone.
pub open spec fn idle_step(count: u8, byte: u8) -> (Device, Seq<Action>)
    recommends
        count < HANDSHAKE_THRESHOLD,
{
    if byte == 0x00 {
        if count + 1 == HANDSHAKE_THRESHOLD {
            (Device { state: State::Idle, count: 0 }, banner_bbio())
        } else {
            (Device { state: State::Idle, count: (count + 1) as u8 }, Seq::empty())
        }
    } else if byte == 0x05 {
        (Device { state: State::RawWire, count }, banner_raw())
    } else {
        (Device { state: State::Idle, count }, Seq::empty())
    }
}

/// One raw-wire step on a command byte: the dispatch table, exact matches
/// before masked ranges. `0x00` exits to idle behind a `BBIO1` banner;
/// `0x01` re-announces `RAW1`; `0x06` schedules a byte read; `0x07`
/// schedules a single sample; `0x09` pulses the clock once; `0x0A`/`0x0B`
/// and `0x0C`/`0x0D` set the clock and data lines to their low bit;
/// `0x10`-`0x1F` open a bulk write of `(cmd & 0x0F) + 1` bytes; `0x20`-`0x2F`
/// pulse the clock `(cmd & 0x0F) + 1` times behind a single acknowledgment;
/// the three configuration ranges are accepted as no-ops; anything else is a
/// fatal fault answered by silence.
pub open spec fn raw_step(count: u8, cmd: u8) -> (Device, Seq<Action>) {
    if cmd == 0x00 {
        (Device { state: State::Idle, count }, banner_bbio())
    } else if cmd == 0x01 {
        (Device { state: State::RawWire, count }, banner_raw())
    } else if cmd == 0x06 {
        (Device { state: State::AwaitReadBits, count }, read_byte_trace())
    } else if cmd == 0x07 {
        (Device { state: State::AwaitSampleBit, count }, sample_once_trace())
    } else if cmd == 0x09 {
        (Device { state: State::RawWire, count }, clock_pulse() + seq![Action::Emit(ACK)])
    } else if cmd & 0xFE == 0x0A {
        (
            Device { state: State::RawWire, count },
            seq![Action::SetClock(cmd & 1 == 1), Action::Emit(ACK)],
        )
    } else if cmd & 0xFE == 0x0C {
        (
            Device { state: State::RawWire, count },
            seq![Action::SetData(cmd & 1 == 1), Action::Emit(ACK)],
        )
    } else if cmd & 0xF0 == 0x10 {
        (
            Device { state: State::BulkWrite { remaining: ((cmd & 0x0F) + 1) as u8 }, count },
            seq![Action::Emit(ACK)],
        )
    } else if cmd & 0xF0 == 0x20 {
        (
            Device { state: State::RawWire, count },
            pulse_train(((cmd & 0x0F) + 1) as nat) + seq![Action::Emit(ACK)],
        )
    } else if cmd & 0xF0 == 0x40 || cmd & 0xF0 == 0x60 || cmd & 0xF0 == 0x80 {
        (Device { state: State::RawWire, count }, seq![Action::Emit(ACK)])
    } else {
        (Device { state: State::Halted, count }, Seq::empty())
    }
}

/// The machine's whole behaviour: the device after an event, and the trace
/// of hardware actions answering it. An event of a shape the current state
/// does not wait for (the shell, running the protocol loop, never produces
/// one) is ignored; a halted device ignores everything.
pub open spec fn step_spec(pre: Device, event: Event) -> (Device, Seq<Action>) {
    match pre.state {
        State::Idle => match event {
            Event::Byte(b) => idle_step(pre.count, b),
            Event::Samples(_) => (pre, Seq::empty()),
        },
        State::RawWire => match event {
            Event::Byte(b) => raw_step(pre.count, b),
            Event::Samples(_) => (pre, Seq::empty()),
        },
        State::BulkWrite { remaining } => match event {
            Event::Byte(b) => (
                Device {
                    state: if remaining > 1 {
                        State::BulkWrite { remaining: (remaining - 1) as u8 }
                    } else {
                        State::RawWire
                    },
                    count: pre.count,
                },
                write_byte_trace(b) + seq![Action::Emit(ACK)],
            ),
            Event::Samples(_) => (pre, Seq::empty()),
        },
        State::AwaitReadBits => match event {
            Event::Samples(bits) => if bits@.len() == 8 {
                (
                    Device { state: State::RawWire, count: pre.count },
                    seq![Action::Emit(byte_from_bits(bits@))],
                )
            } else {
                (pre, Seq::empty())
            },
            Event::Byte(_) => (pre, Seq::empty()),
        },
        State::AwaitSampleBit => match event {
            Event::Samples(bits) => if bits@.len() == 1 {
                (
                    Device { state: State::RawWire, count: pre.count },
                    seq![Action::Emit(if bits@[0] { 0x01u8 } else { 0x00u8 })],
                )
            } else {
                (pre, Seq::empty())
            },
            Event::Byte(_) => (pre, Seq::empty()),
        },
        State::Halted => (pre, Seq::empty()),
    }
}

/// The machine run over a whole sequence of received bytes: the device it
/// ends in, and the concatenation of the traces each byte was answered
/// with.
pub open spec fn run_bytes(d: Device, bytes: Seq<u8>) -> (Device, Seq<Action>)
    decreases bytes.len(),
{
    if bytes.len() == 0 {
        (d, Seq::empty())
    } else {
        let head = step_spec(d, Event::Byte(bytes.first()));
        let rest = run_bytes(head.0, bytes.drop_first());
        (rest.0, head.1 + rest.1)
    }
}

impl Device {
    /// Powers the adapter up idle, with the handshake counter at zero.
    pub fn new() -> (d: Device)
        ensures
            d == Device::initial(),
            d.wf(),
    {
        Device { state: State::Idle, count: 0 }
    }

    /// Feeds the machine one event and returns the trace of hardware
    /// actions answering it, exactly as [`step_spec`] states.
    pub fn step(&mut self, event: Event) -> (out: Vec<Action>)
        requires
            old(self).wf(),
        ensures
            *final(self) == step_spec(*old(self), event).0,
            out@ == step_spec(*old(self), event).1,
            final(self).wf(),
    {
        match self.state {
            State::Idle => match event {
                Event::Byte(b) => {
                    if b == 0x00 {
                        if self.count + 1 == HANDSHAKE_THRESHOLD {
                            self.count = 0;
                            banner_bbio_actions()
                        } else {
                            self.count = self.count + 1;
                            Vec::new()
                        }
                    } else if b == 0x05 {
                        self.state = State::RawWire;
                        banner_raw_actions()
                    } else {
                        Vec::new()
                    }
                },
                Event::Samples(_) => Vec::new(),
            },
            State::RawWire => match event {
                Event::Byte(cmd) => self.raw_command(cmd),
                Event::Samples(_) => Vec::new(),
            },
            State::BulkWrite { remaining } => match event {
                Event::Byte(b) => {
                    let mut out = write_byte_actions(b);
                    out.push(Action::Emit(ACK));
                    if remaining > 1 {
                        self.state = State::BulkWrite { remaining: remaining - 1 };
                    } else {
                        self.state = State::RawWire;
                    }
                    proof {
                        assert(out@ =~= write_byte_trace(b) + seq![Action::Emit(ACK)]);
                    }
                    out
                },
                Event::Samples(_) => Vec::new(),
            },
            State::AwaitReadBits => match event {
                Event::Samples(bits) => {
                    if bits.len() == 8 {
                        let value = assemble_byte(&bits);
                        self.state = State::RawWire;
                        let mut out: Vec<Action> = Vec::new();
                        out.push(Action::Emit(value));
                        proof {
                            assert(out@ =~= seq![Action::Emit(byte_from_bits(bits@))]);
                        }
                        out
                    } else {
                        Vec::new()
                    }
                },
                Event::Byte(_) => Vec::new(),
            },
            State::AwaitSampleBit => match event {
                Event::Samples(bits) => {
                    if bits.len() == 1 {
                        let level = bits[0];
                        self.state = State::RawWire;
                        let mut out: Vec<Action> = Vec::new();
                        out.push(Action::Emit(if level { 0x01 } else { 0x00 }));
                        proof {
                            assert(out@ =~= seq![
                                Action::Emit(if bits@[0] { 0x01u8 } else { 0x00u8 }),
                            ]);
                        }
                        out
                    } else {
                        Vec::new()
                    }
                },
                Event::Byte(_) => Vec::new(),
            },
            State::Halted => Vec::new(),
        }
    }

    /// Decodes and answers one raw-wire command byte, per the dispatch
    /// table of [`raw_step`].
    fn raw_command(&mut self, cmd: u8) -> (out: Vec<Action>)
        requires
            old(self).wf(),
            old(self).state == State::RawWire,
        ensures
            *final(self) == raw_step(old(self).count, cmd).0,
            out@ == raw_step(old(self).count, cmd).1,
            final(self).wf(),
    {
        if cmd == 0x00 {
            self.state = State::Idle;
            banner_bbio_actions()
        } else if cmd == 0x01 {
            banner_raw_actions()
        } else if cmd == 0x06 {
            self.state = State::AwaitReadBits;
            read_byte_actions()
        } else if cmd == 0x07 {
            self.state = State::AwaitSampleBit;
            let mut out: Vec<Action> = Vec::new();
            out.push(Action::SetClock(true));
            out.push(Action::SetData(true));
            out.push(Action::DelayUs);
            out.push(Action::SetClock(false));
            out.push(Action::DelayUs);
            out.push(Action::Sample);
            proof {
                assert(out@ =~= sample_once_trace());
            }
            out
        } else if cmd == 0x09 {
            let mut out: Vec<Action> = Vec::new();
            out.push(Action::SetClock(true));
            out.push(Action::DelayUs);
            out.push(Action::SetClock(false));
            out.push(Action::DelayUs);
            out.push(Action::Emit(ACK));
            proof {
                assert(out@ =~= clock_pulse() + seq![Action::Emit(ACK)]);
            }
            out
        } else if cmd & 0xFE == 0x0A {
            let mut out: Vec<Action> = Vec::new();
            out.push(Action::SetClock(cmd & 1 == 1));
            out.push(Action::Emit(ACK));
            proof {
                assert(out@ =~= seq![Action::SetClock(cmd & 1 == 1), Action::Emit(ACK)]);
            }
            out
        } else if cmd & 0xFE == 0x0C {
            let mut out: Vec<Action> = Vec::new();
            out.push(Action::SetData(cmd & 1 == 1));
            out.push(Action::Emit(ACK));
            proof {
                assert(out@ =~= seq![Action::SetData(cmd & 1 == 1), Action::Emit(ACK)]);
            }
            out
        } else if cmd & 0xF0 == 0x10 {
            proof {
                assert(cmd & 0x0F < 16) by (bit_vector);
            }
            self.state = State::BulkWrite { remaining: (cmd & 0x0F) + 1 };
            let mut out: Vec<Action> = Vec::new();
            out.push(Action::Emit(ACK));
            proof {
                assert(out@ =~= seq![Action::Emit(ACK)]);
            }
            out
        } else if cmd & 0xF0 == 0x20 {
            proof {
                assert(cmd & 0x0F < 16) by (bit_vector);
            }
            let mut out = pulse_train_actions((cmd & 0x0F) + 1);
            out.push(Action::Emit(ACK));
            proof {
                assert(out@ =~= pulse_train(((cmd & 0x0F) + 1) as nat) + seq![Action::Emit(ACK)]);
            }
            out
        } else if cmd & 0xF0 == 0x40 || cmd & 0xF0 == 0x60 || cmd & 0xF0 == 0x80 {
            let mut out: Vec<Action> = Vec::new();
            out.push(Action::Emit(ACK));
            proof {
                assert(out@ =~= seq![Action::Emit(ACK)]);
            }
            out
        } else {
            self.state = State::Halted;
            Vec::new()
        }
    }
}

} // verus!
