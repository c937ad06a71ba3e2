//! The two bit-banged transfer primitives: the action schedule that writes
//! one byte onto the wire, the action schedule that reads one byte back, and
//! the assembly of a byte from the eight levels sampled by the read schedule.
//!
//! Both transfers move the least significant bit first. A write settles the
//! data line, holds it for a microsecond of setup time, then pulses the
//! clock; a read releases the data line (drives it high, relying on the
//! external pull-up), then samples the line once per clock pulse while the
//! clock is high.

use vstd::prelude::*;

use crate::action::Action;
use crate::action::data_levels;
use crate::action::lemma_trace_measures_add;

verus! {

/// Whether bit `i` (counting from the least significant end) of `b` is set.
pub open spec fn bit_of(b: u8, i: u8) -> bool {
    (b >> i) & 1 == 1
}

/// The bits of `b`, least significant first: the order both primitives put
/// them on the wire.
pub open spec fn bits_of(b: u8) -> Seq<bool> {
    Seq::new(8, |i: int| bit_of(b, i as u8))
}

/// The byte whose bit `i` is `bits[i]`: how the read primitive assembles the
/// eight levels it sampled, least significant bit sampled first.
pub open spec fn byte_from_bits(bits: Seq<bool>) -> u8
    recommends
        bits.len() == 8,
{
    (if bits[0] { 0x01u8 } else { 0u8 })
    | (if bits[1] { 0x02u8 } else { 0u8 })
    | (if bits[2] { 0x04u8 } else { 0u8 })
    | (if bits[3] { 0x08u8 } else { 0u8 })
    | (if bits[4] { 0x10u8 } else { 0u8 })
    | (if bits[5] { 0x20u8 } else { 0u8 })
    | (if bits[6] { 0x40u8 } else { 0u8 })
    | (if bits[7] { 0x80u8 } else { 0u8 })
}

/// The schedule that transmits one bit: settle the data line, one
/// microsecond of setup, then one full clock pulse with the level held.
pub open spec fn write_bit(level: bool) -> Seq<Action> {
    seq![
        Action::SetData(level),
        Action::DelayUs,
        Action::SetClock(true),
        Action::DelayUs,
        Action::SetClock(false),
        Action::DelayUs,
    ]
}

/// The write schedule for the `k` least significant bits of `b`, in wire
/// order.
pub open spec fn write_trace_upto(b: u8, k: int) -> Seq<Action>
    decreases k,
{
    if k <= 0 {
        Seq::empty()
    } else {
        write_trace_upto(b, k - 1) + write_bit(bit_of(b, (k - 1) as u8))
    }
}

/// The full schedule that transmits `b`, least significant bit first.
pub open spec fn write_byte_trace(b: u8) -> Seq<Action> {
    write_trace_upto(b, 8)
}

/// The schedule that receives one bit: raise the clock, hold a microsecond,
/// sample the data line while the clock is high, then lower the clock and
/// hold again.
pub open spec fn read_bit_group() -> Seq<Action> {
    seq![
        Action::SetClock(true),
        Action::DelayUs,
        Action::Sample,
        Action::SetClock(false),
        Action::DelayUs,
    ]
}

/// `k` receive groups back to back.
pub open spec fn read_groups(k: int) -> Seq<Action>
    decreases k,
{
    if k <= 0 {
        Seq::empty()
    } else {
        read_groups(k - 1) + read_bit_group()
    }
}

/// The full schedule that receives one byte: release the data line to the
/// peer, then eight receive groups. The eight sampled levels, fed back to
/// the core, assemble via [`byte_from_bits`].
pub open spec fn read_byte_trace() -> Seq<Action> {
    seq![Action::SetData(true)] + read_groups(8)
}

/// Builds the write schedule for `b`: for each of the eight bits, least
/// significant first, settle the data line to the bit, wait a microsecond,
/// and pulse the clock with a microsecond high and a microsecond low.
pub fn write_byte_actions(b: u8) -> (out: Vec<Action>)
    ensures
        out@ == write_byte_trace(b),
{
    let mut out: Vec<Action> = Vec::new();
    let mut i: u8 = 0;
    while i < 8
        invariant
            i <= 8,
            out@ == write_trace_upto(b, i as int),
        decreases 8 - i,
    {
        let ghost before = out@;
        let level: bool = (b >> i) & 1 == 1;
        out.push(Action::SetData(level));
        out.push(Action::DelayUs);
        out.push(Action::SetClock(true));
        out.push(Action::DelayUs);
        out.push(Action::SetClock(false));
        out.push(Action::DelayUs);
        proof {
            assert(level == bit_of(b, i));
            assert(out@ =~= before + write_bit(bit_of(b, i)));
            assert(write_trace_upto(b, i + 1) == write_trace_upto(b, i as int) + write_bit(
                bit_of(b, i),
            ));
        }
        i = i + 1;
    }
    out
}

/// Builds the read schedule: release the data line, then eight clock pulses,
/// sampling the data line while the clock is high in each.
pub fn read_byte_actions() -> (out: Vec<Action>)
    ensures
        out@ == read_byte_trace(),
{
    let mut out: Vec<Action> = Vec::new();
    out.push(Action::SetData(true));
    let mut i: u8 = 0;
    while i < 8
        invariant
            i <= 8,
            out@ == seq![Action::SetData(true)] + read_groups(i as int),
        decreases 8 - i,
    {
        let ghost before = out@;
        out.push(Action::SetClock(true));
        out.push(Action::DelayUs);
        out.push(Action::Sample);
        out.push(Action::SetClock(false));
        out.push(Action::DelayUs);
        proof {
            assert(out@ =~= before + read_bit_group());
            assert(seq![Action::SetData(true)] + read_groups(i + 1) =~= (seq![
                Action::SetData(true),
            ] + read_groups(i as int)) + read_bit_group());
        }
        i = i + 1;
    }
    out
}

/// Assembles the byte a read transfer received from the eight levels it
/// sampled, least significant bit sampled first.
pub fn assemble_byte(bits: &Vec<bool>) -> (r: u8)
    requires
        bits@.len() == 8,
    ensures
        r == byte_from_bits(bits@),
{
    let t0: u8 = if bits[0] { 0x01 } else { 0 };
    let t1: u8 = if bits[1] { 0x02 } else { 0 };
    let t2: u8 = if bits[2] { 0x04 } else { 0 };
    let t3: u8 = if bits[3] { 0x08 } else { 0 };
    let t4: u8 = if bits[4] { 0x10 } else { 0 };
    let t5: u8 = if bits[5] { 0x20 } else { 0 };
    let t6: u8 = if bits[6] { 0x40 } else { 0 };
    let t7: u8 = if bits[7] { 0x80 } else { 0 };
    t0 | t1 | t2 | t3 | t4 | t5 | t6 | t7
}

/// A write-bit schedule drives the data line to exactly its bit, once.
pub proof fn lemma_write_bit_levels(level: bool)
    ensures
        data_levels(write_bit(level)) == seq![level],
{
    reveal_with_fuel(data_levels, 7);
    let s1 = seq![Action::SetData(level)];
    let s2 = seq![Action::SetData(level), Action::DelayUs];
    let s3 = seq![Action::SetData(level), Action::DelayUs, Action::SetClock(true)];
    let s4 = seq![
        Action::SetData(level),
        Action::DelayUs,
        Action::SetClock(true),
        Action::DelayUs,
    ];
    let s5 = seq![
        Action::SetData(level),
        Action::DelayUs,
        Action::SetClock(true),
        Action::DelayUs,
        Action::SetClock(false),
    ];
    assert(write_bit(level).drop_last() =~= s5);
    assert(s5.drop_last() =~= s4);
    assert(s4.drop_last() =~= s3);
    assert(s3.drop_last() =~= s2);
    assert(s2.drop_last() =~= s1);
    assert(s1.drop_last() =~= Seq::<Action>::empty());
    assert(data_levels(write_bit(level)) =~= seq![level]);
}

/// The write schedule for the `k` least significant bits of `b` drives onto
/// the data line exactly those bits, least significant first.
proof fn lemma_write_trace_upto_levels(b: u8, k: int)
    requires
        0 <= k <= 8,
    ensures
        data_levels(write_trace_upto(b, k)) == bits_of(b).subrange(0, k),
    decreases k,
{
    if k == 0 {
        assert(bits_of(b).subrange(0, 0) =~= Seq::<bool>::empty());
    } else {
        lemma_write_trace_upto_levels(b, k - 1);
        lemma_trace_measures_add(write_trace_upto(b, k - 1), write_bit(bit_of(b, (k - 1) as u8)));
        lemma_write_bit_levels(bit_of(b, (k - 1) as u8));
        assert(bits_of(b).subrange(0, k) =~= bits_of(b).subrange(0, k - 1) + seq![
            bit_of(b, (k - 1) as u8),
        ]);
    }
}

/// The full write schedule for `b` drives exactly the bits of `b`, least
/// significant first: the bit stream a peer sampling on each rising clock
/// edge observes.
pub proof fn lemma_write_byte_trace_levels(b: u8)
    ensures
        data_levels(write_byte_trace(b)) == bits_of(b),
{
    lemma_write_trace_upto_levels(b, 8);
    assert(bits_of(b).subrange(0, 8) =~= bits_of(b));
}

/// Reassembling the bits of `b`, least significant first, gives back `b`.
pub proof fn lemma_byte_from_bits_of(b: u8)
    ensures
        byte_from_bits(bits_of(b)) == b,
{
    assert(((if bit_of(b, 0) { 0x01u8 } else { 0u8 })
        | (if bit_of(b, 1) { 0x02u8 } else { 0u8 })
        | (if bit_of(b, 2) { 0x04u8 } else { 0u8 })
        | (if bit_of(b, 3) { 0x08u8 } else { 0u8 })
        | (if bit_of(b, 4) { 0x10u8 } else { 0u8 })
        | (if bit_of(b, 5) { 0x20u8 } else { 0u8 })
        | (if bit_of(b, 6) { 0x40u8 } else { 0u8 })
        | (if bit_of(b, 7) { 0x80u8 } else { 0u8 })) == b) by (bit_vector);
}

} // verus!
