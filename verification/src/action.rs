//! Hardware actions the protocol core asks its shell to perform, and the
//! spec-level vocabulary for reasoning about sequences of them.
//!
//! The core never touches a pin or the serial port itself: every decision it
//! takes is returned as a sequence of [`Action`] values, and the unverified
//! shell performs them strictly in order. A trace of actions is therefore a
//! complete record of the externally visible behaviour of one step.

use vstd::prelude::*;

verus! {

/// One hardware effect, performed by the shell in trace order.
#[derive(Clone, Copy, Debug, PartialEq, Eq, Structural)]
pub enum Action {
    /// Write one byte to the serial link.
    Emit(u8),
    /// Drive the clock line high (`true`) or low (`false`).
    SetClock(bool),
    /// Drive the data line high (`true`) or low (`false`).
    SetData(bool),
    /// Busy-wait for one microsecond.
    DelayUs,
    /// Sample the level of the data line; the shell feeds the levels read
    /// back to the core as its next input event.
    Sample,
}

/// The acknowledgment byte sent after most raw-wire commands.
pub const ACK: u8 = 0x01;

/// The idle-mode banner `BBIO1`, as the serial bytes that spell it.
pub open spec fn banner_bbio() -> Seq<Action> {
    seq![
        Action::Emit(0x42),
        Action::Emit(0x42),
        Action::Emit(0x49),
        Action::Emit(0x4F),
        Action::Emit(0x31),
    ]
}

/// The raw-wire banner `RAW1`, as the serial bytes that spell it.
pub open spec fn banner_raw() -> Seq<Action> {
    seq![Action::Emit(0x52), Action::Emit(0x41), Action::Emit(0x57), Action::Emit(0x31)]
}

/// One full clock pulse: rising edge, one microsecond high, falling edge,
/// one microsecond low.
pub open spec fn clock_pulse() -> Seq<Action> {
    seq![
        Action::SetClock(true),
        Action::DelayUs,
        Action::SetClock(false),
        Action::DelayUs,
    ]
}

/// `n` clock pulses back to back, with no other activity.
pub open spec fn pulse_train(n: nat) -> Seq<Action>
    decreases n,
{
    if n == 0 {
        Seq::empty()
    } else {
        pulse_train((n - 1) as nat) + clock_pulse()
    }
}

/// How many rising clock edges a trace drives.
pub open spec fn rising_edges(tr: Seq<Action>) -> nat
    decreases tr.len(),
{
    if tr.len() == 0 {
        0
    } else {
        rising_edges(tr.drop_last()) + (if tr.last() == Action::SetClock(true) {
            1nat
        } else {
            0nat
        })
    }
}

/// How many falling clock edges a trace drives.
pub open spec fn falling_edges(tr: Seq<Action>) -> nat
    decreases tr.len(),
{
    if tr.len() == 0 {
        0
    } else {
        falling_edges(tr.drop_last()) + (if tr.last() == Action::SetClock(false) {
            1nat
        } else {
            0nat
        })
    }
}

/// How many serial bytes a trace emits.
pub open spec fn emit_count(tr: Seq<Action>) -> nat
    decreases tr.len(),
{
    if tr.len() == 0 {
        0
    } else {
        emit_count(tr.drop_last()) + (if tr.last() is Emit {
            1nat
        } else {
            0nat
        })
    }
}

/// The levels a trace drives onto the data line, in order. For the write
/// traces of this protocol, which settle the data line once before each
/// clock pulse, this is exactly the bit stream a peer sampling on each
/// rising clock edge observes.
pub open spec fn data_levels(tr: Seq<Action>) -> Seq<bool>
    decreases tr.len(),
{
    if tr.len() == 0 {
        Seq::empty()
    } else {
        data_levels(tr.drop_last()) + (match tr.last() {
            Action::SetData(level) => seq![level],
            _ => Seq::empty(),
        })
    }
}

/// Builds the `BBIO1` banner trace.
pub fn banner_bbio_actions() -> (out: Vec<Action>)
    ensures
        out@ == banner_bbio(),
{
    let mut out: Vec<Action> = Vec::new();
    out.push(Action::Emit(0x42));
    out.push(Action::Emit(0x42));
    out.push(Action::Emit(0x49));
    out.push(Action::Emit(0x4F));
    out.push(Action::Emit(0x31));
    proof {
        assert(out@ =~= banner_bbio());
    }
    out
}

/// Builds the `RAW1` banner trace.
pub fn banner_raw_actions() -> (out: Vec<Action>)
    ensures
        out@ == banner_raw(),
{
    let mut out: Vec<Action> = Vec::new();
    out.push(Action::Emit(0x52));
    out.push(Action::Emit(0x41));
    out.push(Action::Emit(0x57));
    out.push(Action::Emit(0x31));
    proof {
        assert(out@ =~= banner_raw());
    }
    out
}

/// Builds a train of `n` clock pulses: each drives the clock high, holds one
/// microsecond, drives it low, and holds one microsecond again.
pub fn pulse_train_actions(n: u8) -> (out: Vec<Action>)
    ensures
        out@ == pulse_train(n as nat),
{
    let mut out: Vec<Action> = Vec::new();
    let mut i: u8 = 0;
    while i < n
        invariant
            i <= n,
            out@ == pulse_train(i as nat),
        decreases n - i,
    {
        let ghost before = out@;
        out.push(Action::SetClock(true));
        out.push(Action::DelayUs);
        out.push(Action::SetClock(false));
        out.push(Action::DelayUs);
        proof {
            assert(out@ =~= before + clock_pulse());
        }
        i = i + 1;
    }
    out
}

/// Edge counts, emit counts and driven data levels all distribute over
/// trace concatenation.
pub proof fn lemma_trace_measures_add(a: Seq<Action>, b: Seq<Action>)
    ensures
        rising_edges(a + b) == rising_edges(a) + rising_edges(b),
        falling_edges(a + b) == falling_edges(a) + falling_edges(b),
        emit_count(a + b) == emit_count(a) + emit_count(b),
        data_levels(a + b) == data_levels(a) + data_levels(b),
    decreases b.len(),
{
    if b.len() == 0 {
        assert(a + b =~= a);
        assert(data_levels(a) + data_levels(b) =~= data_levels(a));
    } else {
        assert((a + b).drop_last() =~= a + b.drop_last());
        assert((a + b).last() == b.last());
        lemma_trace_measures_add(a, b.drop_last());
        assert(data_levels(a + b) =~= data_levels(a) + data_levels(b));
    }
}

/// The measures of one clock pulse: one rising and one falling edge, no
/// serial byte, no data-line activity.
pub proof fn lemma_clock_pulse_measures()
    ensures
        rising_edges(clock_pulse()) == 1,
        falling_edges(clock_pulse()) == 1,
        emit_count(clock_pulse()) == 0,
        data_levels(clock_pulse()) == Seq::<bool>::empty(),
{
    reveal_with_fuel(rising_edges, 5);
    reveal_with_fuel(falling_edges, 5);
    reveal_with_fuel(emit_count, 5);
    reveal_with_fuel(data_levels, 5);
    let s1 = seq![Action::SetClock(true)];
    let s2 = seq![Action::SetClock(true), Action::DelayUs];
    let s3 = seq![Action::SetClock(true), Action::DelayUs, Action::SetClock(false)];
    assert(clock_pulse().drop_last() =~= s3);
    assert(s3.drop_last() =~= s2);
    assert(s2.drop_last() =~= s1);
    assert(s1.drop_last() =~= Seq::<Action>::empty());
    assert(data_levels(clock_pulse()) =~= Seq::<bool>::empty());
}

/// A pulse train of `n` pulses drives exactly `n` rising and `n` falling
/// clock edges, emits no serial byte, and never touches the data line.
pub proof fn lemma_pulse_train_measures(n: nat)
    ensures
        rising_edges(pulse_train(n)) == n,
        falling_edges(pulse_train(n)) == n,
        emit_count(pulse_train(n)) == 0,
        data_levels(pulse_train(n)) == Seq::<bool>::empty(),
    decreases n,
{
    if n == 0 {
    } else {
        lemma_pulse_train_measures((n - 1) as nat);
        lemma_trace_measures_add(pulse_train((n - 1) as nat), clock_pulse());
        lemma_clock_pulse_measures();
        assert(data_levels(pulse_train(n)) =~= Seq::<bool>::empty());
    }
}

} // verus!
