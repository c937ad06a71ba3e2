//! The laws of the protocol, stated over [`step_spec`] and [`run_bytes`] and
//! proved once and for all. Because [`Device::step`] is proved to follow
//! `step_spec` exactly, every law here holds of the executable machine.

use vstd::prelude::*;

use crate::action::ACK;
use crate::action::Action;
use crate::action::banner_bbio;
use crate::action::banner_raw;
use crate::action::data_levels;
use crate::action::emit_count;
use crate::action::falling_edges;
use crate::action::pulse_train;
use crate::action::lemma_pulse_train_measures;
use crate::action::lemma_trace_measures_add;
use crate::action::rising_edges;
use crate::bitbang::bits_of;
use crate::bitbang::byte_from_bits;
use crate::bitbang::lemma_byte_from_bits_of;
use crate::bitbang::lemma_write_byte_trace_levels;
use crate::bitbang::write_byte_trace;
use crate::device::Device;
use crate::device::Event;
use crate::device::HANDSHAKE_THRESHOLD;
use crate::device::State;
use crate::device::is_raw_opcode;
use crate::device::run_bytes;
use crate::device::step_spec;

verus! {

/// A sequence of `n` null bytes.
pub open spec fn zeros(n: nat) -> Seq<u8> {
    Seq::new(n, |i: int| 0u8)
}

/// How many bytes of a sequence are null.
pub open spec fn count_zeros(bytes: Seq<u8>) -> nat
    decreases bytes.len(),
{
    if bytes.len() == 0 {
        0
    } else {
        (if bytes.first() == 0 {
            1nat
        } else {
            0nat
        }) + count_zeros(bytes.drop_first())
    }
}

/// Running the machine over a concatenation runs it over the parts in
/// order, and answers with the concatenation of the answers.
pub proof fn lemma_run_bytes_concat(d: Device, a: Seq<u8>, b: Seq<u8>)
    ensures
        run_bytes(d, a + b).0 == run_bytes(run_bytes(d, a).0, b).0,
        run_bytes(d, a + b).1 == run_bytes(d, a).1 + run_bytes(run_bytes(d, a).0, b).1,
    decreases a.len(),
{
    if a.len() == 0 {
        assert(a + b =~= b);
        assert(run_bytes(d, a).1 + run_bytes(run_bytes(d, a).0, b).1 =~= run_bytes(d, b).1);
    } else {
        assert((a + b).first() == a.first());
        assert((a + b).drop_first() =~= a.drop_first() + b);
        let head = step_spec(d, Event::Byte(a.first()));
        lemma_run_bytes_concat(head.0, a.drop_first(), b);
        assert(run_bytes(d, a + b).1 =~= run_bytes(d, a).1 + run_bytes(run_bytes(d, a).0, b).1);
    }
}

/// While idle, a stretch of input that contains no mode-entry byte and too
/// few nulls to reach the handshake threshold is answered with silence: no
/// banner is transmitted, every non-null byte leaves the counter untouched,
/// and only the nulls advance it.
pub proof fn lemma_idle_below_threshold(d: Device, bytes: Seq<u8>)
    requires
        d.wf(),
        d.state == State::Idle,
        forall|i: int| 0 <= i < bytes.len() ==> bytes[i] != 0x05,
        d.count + count_zeros(bytes) < HANDSHAKE_THRESHOLD,
    ensures
        run_bytes(d, bytes).0 == (Device {
            state: State::Idle,
            count: (d.count + count_zeros(bytes)) as u8,
        }),
        run_bytes(d, bytes).1 == Seq::<Action>::empty(),
    decreases bytes.len(),
{
    if bytes.len() == 0 {
        assert(d =~= (Device { state: State::Idle, count: (d.count + 0) as u8 }));
    } else {
        let b = bytes.first();
        assert(bytes[0] != 0x05);
        let head = step_spec(d, Event::Byte(b));
        lemma_idle_below_threshold(head.0, bytes.drop_first());
        assert(run_bytes(d, bytes).1 =~= Seq::<Action>::empty());
    }
}

/// Nulls alone count exactly themselves.
pub proof fn lemma_count_zeros_of_zeros(n: nat)
    ensures
        count_zeros(zeros(n)) == n,
    decreases n,
{
    if n == 0 {
    } else {
        assert(zeros(n).drop_first() =~= zeros((n - 1) as nat));
        lemma_count_zeros_of_zeros((n - 1) as nat);
    }
}

/// Exactly as many nulls as the counter still needs yield one `BBIO1`
/// banner and reset the counter to zero.
pub proof fn lemma_zeros_reach_threshold(d: Device, n: nat)
    requires
        d.wf(),
        d.state == State::Idle,
        d.count + n == HANDSHAKE_THRESHOLD,
    ensures
        run_bytes(d, zeros(n)).0 == (Device { state: State::Idle, count: 0 }),
        run_bytes(d, zeros(n)).1 == banner_bbio(),
    decreases n,
{
    assert(zeros(n).first() == 0);
    assert(zeros(n).drop_first() =~= zeros((n - 1) as nat));
    let head = step_spec(d, Event::Byte(0));
    if n == 1 {
        assert(run_bytes(head.0, zeros(0)).1 == Seq::<Action>::empty());
        assert(run_bytes(d, zeros(n)).1 =~= banner_bbio());
    } else {
        lemma_zeros_reach_threshold(head.0, (n - 1) as nat);
        assert(run_bytes(d, zeros(n)).1 =~= banner_bbio());
    }
}

/// From an idle device, twenty nulls yield exactly one `BBIO1` banner and
/// leave the counter where it started, whatever it started as: the nulls
/// before the threshold advance it, the banner resets it, and the remaining
/// nulls advance it back.
pub proof fn lemma_idle_handshake(d: Device)
    requires
        d.wf(),
        d.state == State::Idle,
    ensures
        run_bytes(d, zeros(HANDSHAKE_THRESHOLD as nat)).0 == d,
        run_bytes(d, zeros(HANDSHAKE_THRESHOLD as nat)).1 == banner_bbio(),
{
    let c = d.count as nat;
    let head = (HANDSHAKE_THRESHOLD - d.count) as nat;
    assert(zeros(HANDSHAKE_THRESHOLD as nat) =~= zeros(head) + zeros(c));
    lemma_zeros_reach_threshold(d, head);
    let d1 = Device { state: State::Idle, count: 0 };
    lemma_count_zeros_of_zeros(c);
    assert(forall|i: int| 0 <= i < zeros(c).len() ==> zeros(c)[i] != 0x05);
    lemma_idle_below_threshold(d1, zeros(c));
    lemma_run_bytes_concat(d, zeros(head), zeros(c));
    assert(run_bytes(d, zeros(HANDSHAKE_THRESHOLD as nat)).0 =~= d);
    assert(run_bytes(d, zeros(HANDSHAKE_THRESHOLD as nat)).1 =~= banner_bbio());
}

/// Sending twenty nulls twice from a fresh idle device yields the banner
/// twice: the counter reset after the first banner makes the handshake
/// repeatable.
pub proof fn lemma_idle_handshake_repeats(d: Device)
    requires
        d.wf(),
        d.state == State::Idle,
    ensures
        run_bytes(d, zeros(2 * HANDSHAKE_THRESHOLD as nat)).0 == d,
        run_bytes(d, zeros(2 * HANDSHAKE_THRESHOLD as nat)).1 == banner_bbio() + banner_bbio(),
{
    let n = HANDSHAKE_THRESHOLD as nat;
    assert(zeros(2 * n) =~= zeros(n) + zeros(n));
    lemma_idle_handshake(d);
    lemma_run_bytes_concat(d, zeros(n), zeros(n));
}

/// The mode-entry byte `0x05`, received while idle, is answered with
/// exactly the `RAW1` banner and moves the machine to raw-wire mode.
pub proof fn lemma_enter_raw_wire(d: Device)
    requires
        d.wf(),
        d.state == State::Idle,
    ensures
        step_spec(d, Event::Byte(0x05)).0 == (Device { state: State::RawWire, count: d.count }),
        step_spec(d, Event::Byte(0x05)).1 == banner_raw(),
{
}

/// The set-clock and set-data commands are idempotent: sent twice in a row,
/// each answer drives the same line to the same level — the command's low
/// bit — and acknowledges once, and the machine stays in raw-wire mode
/// throughout.
pub proof fn lemma_set_line_idempotent(d: Device, cmd: u8)
    requires
        d.wf(),
        d.state == State::RawWire,
        cmd & 0xFE == 0x0A || cmd & 0xFE == 0x0C,
    ensures
        run_bytes(d, seq![cmd, cmd]).0 == d,
        run_bytes(d, seq![cmd, cmd]).1 == (if cmd & 0xFE == 0x0A {
            seq![
                Action::SetClock(cmd & 1 == 1),
                Action::Emit(ACK),
                Action::SetClock(cmd & 1 == 1),
                Action::Emit(ACK),
            ]
        } else {
            seq![
                Action::SetData(cmd & 1 == 1),
                Action::Emit(ACK),
                Action::SetData(cmd & 1 == 1),
                Action::Emit(ACK),
            ]
        }),
{
    assert((cmd & 0xFE == 0x0A || cmd & 0xFE == 0x0C) ==> cmd != 0x00 && cmd != 0x01 && cmd
        != 0x06 && cmd != 0x07 && cmd != 0x09) by (bit_vector);
    reveal_with_fuel(run_bytes, 4);
    let s = seq![cmd, cmd];
    assert(s.first() == cmd);
    assert(s.drop_first() =~= seq![cmd]);
    assert(seq![cmd].first() == cmd);
    assert(seq![cmd].drop_first() =~= Seq::<u8>::empty());
    let once = step_spec(d, Event::Byte(cmd));
    assert(once.0 =~= d);
    assert(run_bytes(d, s).0 == d);
    assert(run_bytes(d, s).1 =~= once.1 + once.1);
    if cmd & 0xFE == 0x0A {
        assert(once.1 + once.1 =~= seq![
            Action::SetClock(cmd & 1 == 1),
            Action::Emit(ACK),
            Action::SetClock(cmd & 1 == 1),
            Action::Emit(ACK),
        ]);
    } else {
        assert(once.1 + once.1 =~= seq![
            Action::SetData(cmd & 1 == 1),
            Action::Emit(ACK),
            Action::SetData(cmd & 1 == 1),
            Action::Emit(ACK),
        ]);
    }
}

/// A bulk clock-pulse command answers with exactly `(cmd & 0x0F) + 1` full
/// clock pulses — as many rising as falling edges — followed by a single
/// acknowledgment, the only serial byte of the answer; the data line is
/// never touched.
pub proof fn lemma_bulk_pulses(d: Device, cmd: u8)
    requires
        d.wf(),
        d.state == State::RawWire,
        cmd & 0xF0 == 0x20,
    ensures
        step_spec(d, Event::Byte(cmd)).0 == d,
        step_spec(d, Event::Byte(cmd)).1 == pulse_train(((cmd & 0x0F) + 1) as nat) + seq![
            Action::Emit(ACK),
        ],
        rising_edges(step_spec(d, Event::Byte(cmd)).1) == (cmd & 0x0F) + 1,
        falling_edges(step_spec(d, Event::Byte(cmd)).1) == (cmd & 0x0F) + 1,
        emit_count(step_spec(d, Event::Byte(cmd)).1) == 1,
        step_spec(d, Event::Byte(cmd)).1.last() == Action::Emit(ACK),
{
    assert(cmd & 0xF0 == 0x20 ==> cmd != 0x00 && cmd != 0x01 && cmd != 0x06 && cmd != 0x07 && cmd
        != 0x09 && cmd & 0xFE != 0x0A && cmd & 0xFE != 0x0C && cmd & 0xF0 != 0x10) by (bit_vector);
    assert(step_spec(d, Event::Byte(cmd)).0 =~= d);
    let n = ((cmd & 0x0F) + 1) as nat;
    lemma_pulse_train_measures(n);
    lemma_trace_measures_add(pulse_train(n), seq![Action::Emit(ACK)]);
    reveal_with_fuel(rising_edges, 3);
    reveal_with_fuel(falling_edges, 3);
    reveal_with_fuel(emit_count, 3);
    let ack = seq![Action::Emit(ACK)];
    assert(ack.drop_last() =~= Seq::<Action>::empty());
    assert(rising_edges(ack) == 0);
    assert(falling_edges(ack) == 0);
    assert(emit_count(ack) == 1);
}

/// A null byte in raw-wire mode is answered with exactly the `BBIO1` banner
/// and returns the machine to idle, from where the twenty-null handshake
/// works again as the idle law states.
pub proof fn lemma_exit_raw_wire(d: Device)
    requires
        d.wf(),
        d.state == State::RawWire,
    ensures
        step_spec(d, Event::Byte(0x00)).0 == (Device { state: State::Idle, count: d.count }),
        step_spec(d, Event::Byte(0x00)).1 == banner_bbio(),
        run_bytes(step_spec(d, Event::Byte(0x00)).0, zeros(HANDSHAKE_THRESHOLD as nat)).1
            == banner_bbio(),
{
    lemma_idle_handshake(Device { state: State::Idle, count: d.count });
}

/// A byte matching no raw-wire command is a fatal fault: the machine halts
/// with no reply, and once halted it answers every further byte with
/// silence — it is never a silent no-op that stays in raw-wire mode.
pub proof fn lemma_unknown_opcode_faults(d: Device, cmd: u8, later: Seq<u8>)
    requires
        d.wf(),
        d.state == State::RawWire,
        !is_raw_opcode(cmd),
    ensures
        step_spec(d, Event::Byte(cmd)).0 == (Device { state: State::Halted, count: d.count }),
        step_spec(d, Event::Byte(cmd)).1 == Seq::<Action>::empty(),
        run_bytes(step_spec(d, Event::Byte(cmd)).0, later).0 == (Device {
            state: State::Halted,
            count: d.count,
        }),
        run_bytes(step_spec(d, Event::Byte(cmd)).0, later).1 == Seq::<Action>::empty(),
{
    lemma_halted_stays_silent(Device { state: State::Halted, count: d.count }, later);
}

/// A halted machine ignores every event and every byte, forever.
pub proof fn lemma_halted_stays_silent(d: Device, bytes: Seq<u8>)
    requires
        d.state == State::Halted,
    ensures
        run_bytes(d, bytes).0 == d,
        run_bytes(d, bytes).1 == Seq::<Action>::empty(),
    decreases bytes.len(),
{
    if bytes.len() == 0 {
    } else {
        lemma_halted_stays_silent(d, bytes.drop_first());
        assert(run_bytes(d, bytes).1 =~= Seq::<Action>::empty());
    }
}

/// The write/read round trip is the identity: the write schedule for a byte
/// drives its bits onto the data line least significant first, and a read
/// transfer fed exactly those levels assembles the original byte.
pub proof fn lemma_write_read_round_trip(b: u8)
    ensures
        byte_from_bits(data_levels(write_byte_trace(b))) == b,
{
    lemma_write_byte_trace_levels(b);
    lemma_byte_from_bits_of(b);
}

/// The answers to the data bytes of one bulk write: for each byte in order,
/// its write schedule followed by one acknowledgment.
pub open spec fn bulk_replies(payload: Seq<u8>) -> Seq<Action>
    decreases payload.len(),
{
    if payload.len() == 0 {
        Seq::empty()
    } else {
        (write_byte_trace(payload.first()) + seq![Action::Emit(ACK)]) + bulk_replies(
            payload.drop_first(),
        )
    }
}

/// The bits a bulk write drives onto the data line: the bits of every
/// payload byte in order, least significant first within each byte.
pub open spec fn payload_bits(payload: Seq<u8>) -> Seq<bool>
    decreases payload.len(),
{
    if payload.len() == 0 {
        Seq::empty()
    } else {
        bits_of(payload.first()) + payload_bits(payload.drop_first())
    }
}

/// A bulk write drives eight bits per payload byte.
proof fn lemma_payload_bits_len(payload: Seq<u8>)
    ensures
        payload_bits(payload).len() == 8 * payload.len(),
    decreases payload.len(),
{
    if payload.len() == 0 {
    } else {
        lemma_payload_bits_len(payload.drop_first());
    }
}

/// Each payload byte of a bulk write is recoverable from its own eight bits
/// of the driven stream: the `i`-th chunk of eight levels is exactly its
/// bits, least significant first, and reassembles to the byte itself.
pub proof fn lemma_payload_bits_chunks(payload: Seq<u8>, i: int)
    requires
        0 <= i < payload.len(),
    ensures
        payload_bits(payload).subrange(8 * i, 8 * i + 8) == bits_of(payload[i]),
        byte_from_bits(payload_bits(payload).subrange(8 * i, 8 * i + 8)) == payload[i],
    decreases i,
{
    lemma_payload_bits_len(payload.drop_first());
    if i == 0 {
        assert(payload_bits(payload).subrange(0, 8) =~= bits_of(payload.first()));
    } else {
        lemma_payload_bits_chunks(payload.drop_first(), i - 1);
        assert(payload_bits(payload).subrange(8 * i, 8 * i + 8) =~= payload_bits(
            payload.drop_first(),
        ).subrange(8 * (i - 1), 8 * (i - 1) + 8));
    }
    lemma_byte_from_bits_of(payload[i]);
}

/// The bulk-write answers drive exactly the payload's bits onto the data
/// line; the acknowledgments never touch it.
proof fn lemma_bulk_replies_levels(payload: Seq<u8>)
    ensures
        data_levels(bulk_replies(payload)) == payload_bits(payload),
    decreases payload.len(),
{
    reveal_with_fuel(data_levels, 2);
    if payload.len() == 0 {
    } else {
        let first_reply = write_byte_trace(payload.first()) + seq![Action::Emit(ACK)];
        lemma_bulk_replies_levels(payload.drop_first());
        lemma_trace_measures_add(first_reply, bulk_replies(payload.drop_first()));
        lemma_trace_measures_add(write_byte_trace(payload.first()), seq![Action::Emit(ACK)]);
        lemma_write_byte_trace_levels(payload.first());
        assert(seq![Action::Emit(ACK)].drop_last() =~= Seq::<Action>::empty());
        assert(data_levels(bulk_replies(payload)) =~= payload_bits(payload));
    }
}

/// Inside an open bulk transfer, the owed data bytes are each answered with
/// their write schedule and one acknowledgment, and the last one closes the
/// transfer back to raw-wire mode.
proof fn lemma_bulk_payload_run(d: Device, r: u8, payload: Seq<u8>)
    requires
        d.wf(),
        d.state == (State::BulkWrite { remaining: r }),
        payload.len() == r,
    ensures
        run_bytes(d, payload).0 == (Device { state: State::RawWire, count: d.count }),
        run_bytes(d, payload).1 == bulk_replies(payload),
    decreases payload.len(),
{
    reveal_with_fuel(run_bytes, 3);
    reveal_with_fuel(bulk_replies, 2);
    let head = step_spec(d, Event::Byte(payload.first()));
    if r == 1 {
        assert(payload.drop_first().len() == 0);
        assert(run_bytes(d, payload).1 =~= bulk_replies(payload));
    } else {
        lemma_bulk_payload_run(head.0, (r - 1) as u8, payload.drop_first());
        assert(run_bytes(d, payload).1 =~= bulk_replies(payload));
    }
}

/// A whole bulk write session: the opening command is acknowledged at once,
/// each of its `(cmd & 0x0F) + 1` data bytes is answered with its write
/// schedule and one acknowledgment in lock step, the machine ends back in
/// raw-wire mode with the counter untouched, and the data line sees exactly
/// the payload's bits, least significant first within each byte — the bit
/// stream from which a peer reconstructs every payload byte.
pub proof fn lemma_bulk_write_session(d: Device, cmd: u8, payload: Seq<u8>)
    requires
        d.wf(),
        d.state == State::RawWire,
        cmd & 0xF0 == 0x10,
        payload.len() == (cmd & 0x0F) + 1,
    ensures
        run_bytes(d, seq![cmd] + payload).0 == d,
        run_bytes(d, seq![cmd] + payload).1 == seq![Action::Emit(ACK)] + bulk_replies(payload),
        data_levels(run_bytes(d, seq![cmd] + payload).1) == payload_bits(payload),
{
    assert(cmd & 0xF0 == 0x10 ==> cmd != 0x00 && cmd != 0x01 && cmd != 0x06 && cmd != 0x07 && cmd
        != 0x09 && cmd & 0xFE != 0x0A && cmd & 0xFE != 0x0C) by (bit_vector);
    assert(cmd & 0x0F < 16) by (bit_vector);
    reveal_with_fuel(run_bytes, 3);
    reveal_with_fuel(data_levels, 2);
    assert(seq![cmd].first() == cmd);
    assert(seq![cmd].drop_first() =~= Seq::<u8>::empty());
    let after = step_spec(d, Event::Byte(cmd));
    lemma_bulk_payload_run(after.0, ((cmd & 0x0F) + 1) as u8, payload);
    lemma_run_bytes_concat(d, seq![cmd], payload);
    assert(run_bytes(d, seq![cmd] + payload).0 =~= d);
    assert(run_bytes(d, seq![cmd] + payload).1 =~= seq![Action::Emit(ACK)] + bulk_replies(payload));
    lemma_bulk_replies_levels(payload);
    lemma_trace_measures_add(seq![Action::Emit(ACK)], bulk_replies(payload));
    assert(seq![Action::Emit(ACK)].drop_last() =~= Seq::<Action>::empty());
    assert(data_levels(run_bytes(d, seq![cmd] + payload).1) =~= payload_bits(payload));
}

} // verus!
