//! The bit layout shared by every identifier, and its laws.
//!
//! An identifier packs its fields as
//! `bits 63..22: time, bits 21..17: machine_id, bits 16..12: thread_id,
//! bits 11..0: counter`. Packing does not mask the time field, so bits of
//! `time` at or above bit 42 spill into the other fields; decoding always
//! recovers the low 42 bits of the time that was packed.

use vstd::prelude::*;

verus! {

/// The unpacked form of a 64-bit identifier.
#[derive(Debug)]
pub struct Snowflake {
    /// Milliseconds since the generator's epoch. Only the low 42 bits
    /// survive packing.
    pub time: u64,
    /// Identifier of the host the value was generated on, at most 31.
    pub machine_id: u8,
    /// Identifier of the generation context within the host, at most 31.
    pub thread_id: u8,
    /// Per-millisecond sequence number, at most 4095.
    pub counter: u16,
}

/// The packed form of a (time, machine_id, thread_id, counter) tuple.
pub open spec fn encoded(time: u64, machine_id: u8, thread_id: u8, counter: u16) -> u64 {
    (time << 22) | ((machine_id as u64) << 17) | ((thread_id as u64) << 12) | (counter as u64)
}

/// The fields packed inside a 64-bit value.
pub open spec fn spec_decode(value: u64) -> Snowflake {
    Snowflake {
        time: value >> 22,
        machine_id: ((value & 0x3E0000) >> 17) as u8,
        thread_id: ((value & 0x1F000) >> 12) as u8,
        counter: (value & 0xFFF) as u16,
    }
}

impl From<u64> for Snowflake {
    /// Unpacks a 64-bit value; every bit pattern decodes.
    fn from(value: u64) -> (r: Self) {
        Snowflake {
            time: value >> 22,
            machine_id: ((value & 0x3E0000) >> 17) as u8,
            thread_id: ((value & 0x1F000) >> 12) as u8,
            counter: (value & 0xFFF) as u16,
        }
    }
}

impl vstd::std_specs::convert::FromSpecImpl<u64> for Snowflake {
    open spec fn obeys_from_spec() -> bool {
        true
    }

    open spec fn from_spec(value: u64) -> Self {
        spec_decode(value)
    }
}

impl From<Snowflake> for u64 {
    /// Packs the fields; out-of-range fields overlap their neighbours.
    fn from(value: Snowflake) -> (r: Self) {
        (value.time << 22)
            | ((value.machine_id as u64) << 17)
            | ((value.thread_id as u64) << 12)
            | (value.counter as u64)
    }
}

impl vstd::std_specs::convert::FromSpecImpl<Snowflake> for u64 {
    open spec fn obeys_from_spec() -> bool {
        true
    }

    open spec fn from_spec(value: Snowflake) -> Self {
        encoded(value.time, value.machine_id, value.thread_id, value.counter)
    }
}

/// Where each in-range field lands inside a packed value.
proof fn lemma_packed_fields(t: u64, m: u64, th: u64, c: u64)
    by (bit_vector)
    requires
        m < 32,
        th < 32,
        c < 4096,
    ensures
        ((t << 22) | (m << 17) | (th << 12) | c) >> 22 == t & 0x3FF_FFFF_FFFF,
        (((t << 22) | (m << 17) | (th << 12) | c) & 0x3E0000) >> 17 == m,
        (((t << 22) | (m << 17) | (th << 12) | c) & 0x1F000) >> 12 == th,
        ((t << 22) | (m << 17) | (th << 12) | c) & 0xFFF == c,
{
}

/// Round trip, packing first: decoding a packed value recovers the
/// machine, thread and counter fields exactly, and the low 42 bits of the
/// time field; a time below 2^42 is recovered exactly.
pub proof fn lemma_encode_decode(time: u64, machine_id: u8, thread_id: u8, counter: u16)
    requires
        machine_id <= 31,
        thread_id <= 31,
        counter <= 4095,
    ensures
        spec_decode(encoded(time, machine_id, thread_id, counter)).machine_id == machine_id,
        spec_decode(encoded(time, machine_id, thread_id, counter)).thread_id == thread_id,
        spec_decode(encoded(time, machine_id, thread_id, counter)).counter == counter,
        spec_decode(encoded(time, machine_id, thread_id, counter)).time == time & 0x3FF_FFFF_FFFF,
        time < 0x400_0000_0000 ==> spec_decode(
            encoded(time, machine_id, thread_id, counter),
        ).time == time,
{
    lemma_packed_fields(time, machine_id as u64, thread_id as u64, counter as u64);
    assert(time < 0x400_0000_0000 ==> time & 0x3FF_FFFF_FFFF == time) by (bit_vector);
}

/// Round trip, decoding first: re-packing the fields decoded from any
/// 64-bit value reproduces that value exactly.
pub proof fn lemma_decode_encode(value: u64)
    ensures
        ({
            let s = spec_decode(value);
            encoded(s.time, s.machine_id, s.thread_id, s.counter) == value
        }),
{
    assert(((value >> 22) << 22)
        | (((((value & 0x3E0000) >> 17) as u8) as u64) << 17)
        | (((((value & 0x1F000) >> 12) as u8) as u64) << 12)
        | (((value & 0xFFF) as u16) as u64) == value) by (bit_vector);
}

/// Packed values order by time first, then by counter: with equal machine
/// and thread fields and times below 2^42, a later time wins whatever the
/// counters, and at equal times the larger counter wins.
pub proof fn lemma_encoded_order(
    t1: u64,
    t2: u64,
    machine_id: u8,
    thread_id: u8,
    c1: u16,
    c2: u16,
)
    requires
        machine_id <= 31,
        thread_id <= 31,
        c1 <= 4095,
        c2 <= 4095,
        t1 < 0x400_0000_0000,
        t2 < 0x400_0000_0000,
        t1 < t2 || (t1 == t2 && c1 < c2),
    ensures
        encoded(t1, machine_id, thread_id, c1) < encoded(t2, machine_id, thread_id, c2),
{
    lemma_packed_order(
        t1,
        t2,
        machine_id as u64,
        thread_id as u64,
        c1 as u64,
        c2 as u64,
    );
}

proof fn lemma_packed_order(t1: u64, t2: u64, m: u64, th: u64, c1: u64, c2: u64)
    by (bit_vector)
    requires
        m < 32,
        th < 32,
        c1 < 4096,
        c2 < 4096,
        t1 < 0x400_0000_0000,
        t2 < 0x400_0000_0000,
        t1 < t2 || (t1 == t2 && c1 < c2),
    ensures
        ((t1 << 22) | (m << 17) | (th << 12) | c1) < ((t2 << 22) | (m << 17) | (th << 12) | c2),
{
}

} // verus!
