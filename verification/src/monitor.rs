//! Telemetry frames for the UART monitor.
//!
//! # Frame format (19 bytes)
//!
//! | Offset | Size | Field        | Encoding         |
//! |--------|------|------------- |------------------|
//! | 0      | 1    | sync         | `0xAA`           |
//! | 1      | 4    | time_ms      | u32 LE           |
//! | 5      | 4    | temp         | f32 LE           |
//! | 9      | 4    | setpoint     | f32 LE           |
//! | 13     | 4    | power        | f32 LE           |
//! | 17     | 1    | flags        | bit0=en bit1=vlv bit2=pump |
//! | 18     | 1    | checksum     | XOR of bytes 1..17 |
use vstd::prelude::*;

verus! {

pub const SYNC: u8 = 0xAA;

pub const FRAME_LEN: usize = 19;

/// One telemetry sample (control task → monitor task). The temperatures and
/// the power are carried as the bit patterns of their `f32` values
/// (`f32::to_bits`), which is also what goes on the wire.
#[derive(Clone, Copy, Debug, PartialEq, Eq, Structural)]
pub struct TelemetryFrame {
    pub time_ms: u32,
    pub temp_bits: u32,
    pub setpoint_bits: u32,
    pub power_bits: u32,
    /// The dead-time-compensated temperature estimate; not sent on the wire.
    pub y_hat_bits: u32,
    /// bit0 = heater enabled, bit1 = valve open, bit2 = pump on
    pub flags: u8,
}

/// The four bytes of `x`, least significant first.
pub open spec fn le_bytes(x: u32) -> Seq<u8> {
    seq![
        (x & 0xff) as u8,
        ((x >> 8u32) & 0xff) as u8,
        ((x >> 16u32) & 0xff) as u8,
        ((x >> 24u32) & 0xff) as u8,
    ]
}

/// The number whose little-endian bytes are `b[0..4]`.
pub open spec fn le_value(b: Seq<u8>) -> u32 {
    (b[0] as u32) | ((b[1] as u32) << 8u32) | ((b[2] as u32) << 16u32) | ((b[3] as u32) << 24u32)
}

/// XOR of all bytes of `s`.
pub open spec fn xor_all(s: Seq<u8>) -> u8
    decreases s.len(),
{
    if s.len() == 0 {
        0
    } else {
        xor_all(s.drop_last()) ^ s.last()
    }
}

/// The flags byte: bit0 = heater enabled, bit1 = valve open, bit2 = pump on.
pub open spec fn flag_bits(enabled: bool, valve_open: bool, pump_on: bool) -> u8 {
    ((if enabled { 1int } else { 0 }) + (if valve_open { 2int } else { 0 }) + (if pump_on {
        4int
    } else {
        0
    })) as u8
}

/// Bytes 1..17 of the frame of `f`: everything the checksum covers.
pub open spec fn frame_payload(f: TelemetryFrame) -> Seq<u8> {
    le_bytes(f.time_ms) + le_bytes(f.temp_bits) + le_bytes(f.setpoint_bits) + le_bytes(
        f.power_bits,
    ) + seq![f.flags]
}

/// The 19 bytes sent for `f`.
pub open spec fn frame_bytes(f: TelemetryFrame) -> Seq<u8> {
    seq![SYNC] + frame_payload(f) + seq![xor_all(frame_payload(f))]
}

/// The flags byte of a telemetry frame.
pub fn telemetry_flags(enabled: bool, valve_open: bool, pump_on: bool) -> (flags: u8)
    ensures
        flags == flag_bits(enabled, valve_open, pump_on),
{
    let e: u8 = if enabled { 1 } else { 0 };
    let v: u8 = if valve_open { 1 } else { 0 };
    let p: u8 = if pump_on { 1 } else { 0 };
    let flags = e | (v << 1u8) | (p << 2u8);
    assert(e <= 1 && v <= 1 && p <= 1 ==> e | (v << 1u8) | (p << 2u8) == e + 2 * v + 4 * p)
        by (bit_vector);
    flags
}

fn write_le(buf: &mut [u8; 19], at: usize, x: u32)
    requires
        at + 4 <= 19,
    ensures
        final(buf)@ == old(buf)@.take(at as int) + le_bytes(x) + old(buf)@.skip(at + 4),
{
    buf[at] = (x & 0xff) as u8;
    buf[at + 1] = ((x >> 8u32) & 0xff) as u8;
    buf[at + 2] = ((x >> 16u32) & 0xff) as u8;
    buf[at + 3] = ((x >> 24u32) & 0xff) as u8;
    assert(buf@ =~= old(buf)@.take(at as int) + le_bytes(x) + old(buf)@.skip(at + 4));
}

/// The bytes sent on the wire for `frame`.
pub fn encode_frame(frame: &TelemetryFrame) -> (buf: [u8; 19])
    ensures
        buf@ == frame_bytes(*frame),
{
    let mut buf = [0u8; 19];
    buf[0] = SYNC;
    write_le(&mut buf, 1, frame.time_ms);
    write_le(&mut buf, 5, frame.temp_bits);
    write_le(&mut buf, 9, frame.setpoint_bits);
    write_le(&mut buf, 13, frame.power_bits);
    buf[17] = frame.flags;
    let ghost payload = frame_payload(*frame);
    assert(buf@.subrange(1, 18) =~= payload);
    // XOR checksum over payload bytes (1..18)
    let mut chk: u8 = 0;
    let mut i: usize = 1;
    while i < 18
        invariant
            1 <= i <= 18,
            buf@.subrange(1, 18) == payload,
            buf@[0] == SYNC,
            chk == xor_all(buf@.subrange(1, i as int)),
        decreases 18 - i,
    {
        assert(buf@.subrange(1, i + 1).drop_last() =~= buf@.subrange(1, i as int));
        chk = chk ^ buf[i];
        i = i + 1;
    }
    buf[18] = chk;
    assert(buf@ =~= frame_bytes(*frame));
    buf
}

/// A receiver's check passes on every frame sent: the XOR of bytes 1..18,
/// checksum included, is zero.
pub proof fn lemma_checksum_cancels(f: TelemetryFrame)
    ensures
        xor_all(frame_bytes(f).subrange(1, 19)) == 0,
{
    let p = frame_payload(f);
    let c = xor_all(p);
    assert(frame_bytes(f).subrange(1, 19).drop_last() =~= p);
    assert(c ^ c == 0) by (bit_vector);
}

/// Each field can be read back from its offset in the frame.
pub proof fn lemma_frame_fields(f: TelemetryFrame)
    ensures
        frame_bytes(f).len() == 19,
        frame_bytes(f)[0] == SYNC,
        le_value(frame_bytes(f).subrange(1, 5)) == f.time_ms,
        le_value(frame_bytes(f).subrange(5, 9)) == f.temp_bits,
        le_value(frame_bytes(f).subrange(9, 13)) == f.setpoint_bits,
        le_value(frame_bytes(f).subrange(13, 17)) == f.power_bits,
        frame_bytes(f)[17] == f.flags,
{
    lemma_le_roundtrip(f.time_ms);
    lemma_le_roundtrip(f.temp_bits);
    lemma_le_roundtrip(f.setpoint_bits);
    lemma_le_roundtrip(f.power_bits);
    let b = frame_bytes(f);
    assert(b.subrange(1, 5) =~= le_bytes(f.time_ms));
    assert(b.subrange(5, 9) =~= le_bytes(f.temp_bits));
    assert(b.subrange(9, 13) =~= le_bytes(f.setpoint_bits));
    assert(b.subrange(13, 17) =~= le_bytes(f.power_bits));
}

/// Little-endian encoding loses nothing: the bytes give back the number.
pub proof fn lemma_le_roundtrip(x: u32)
    ensures
        le_value(le_bytes(x)) == x,
{
    let b = le_bytes(x);
    let b0 = (x & 0xff) as u8;
    let b1 = ((x >> 8u32) & 0xff) as u8;
    let b2 = ((x >> 16u32) & 0xff) as u8;
    let b3 = ((x >> 24u32) & 0xff) as u8;
    assert(b[0] == b0 && b[1] == b1 && b[2] == b2 && b[3] == b3);
    assert((b0 as u32) | ((b1 as u32) << 8u32) | ((b2 as u32) << 16u32) | ((b3 as u32) << 24u32)
        == x) by (bit_vector)
        requires
            b0 == (x & 0xff) as u8,
            b1 == ((x >> 8u32) & 0xff) as u8,
            b2 == ((x >> 16u32) & 0xff) as u8,
            b3 == ((x >> 24u32) & 0xff) as u8,
    ;
}

/// Each flag has its own bit of the flags byte.
pub proof fn lemma_flag_bits(enabled: bool, valve_open: bool, pump_on: bool)
    ensures
        (flag_bits(enabled, valve_open, pump_on) & 1 != 0) == enabled,
        (flag_bits(enabled, valve_open, pump_on) & 2 != 0) == valve_open,
        (flag_bits(enabled, valve_open, pump_on) & 4 != 0) == pump_on,
        flag_bits(enabled, valve_open, pump_on) < 8,
{
    let f = flag_bits(enabled, valve_open, pump_on);
    assert(f < 8 ==> ((f & 1 != 0) == (f % 2 == 1) && (f & 2 != 0) == ((f / 2) % 2 == 1) && (f
        & 4 != 0) == (f / 4 == 1))) by (bit_vector);
}

} // verus!
