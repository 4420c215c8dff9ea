//! The stateful identifier generator.
//!
//! A generator owns a fixed epoch, the last timestamp it used, fixed
//! machine and thread identifiers, and a rolling per-millisecond counter.
//! The wall clock is the one outside dependency; each generation call
//! reads it and is specified by a step relation that admits every outcome
//! the call allows for some clock reading.

use vstd::prelude::*;

use std::time::SystemTime;

use crate::codec::encoded;
use crate::codec::lemma_encode_decode;
use crate::codec::lemma_encoded_order;

verus! {

#[verifier::external_type_specification]
#[verifier::external_body]
pub struct ExSystemTime(SystemTime);

/// Relies on std::time::UNIX_EPOCH: the platform's standard time origin.
#[verifier::external_body]
fn unix_epoch() -> SystemTime {
    std::time::UNIX_EPOCH
}

/// Relies on std::time::SystemTime::now and SystemTime::duration_since
/// (with Duration::as_millis for the unit): milliseconds from `epoch` to
/// the current wall-clock reading. Nothing is assumed about the value: the
/// clock may stand still or move backwards between calls. Diverges by
/// panicking when the clock reads earlier than `epoch`, the library's
/// unrecoverable clock-before-epoch misconfiguration error.
#[verifier::external_body]
fn get_time_millis(epoch: &SystemTime) -> u64 {
    SystemTime::now()
        .duration_since(*epoch)
        .expect("time is before epoch")
        .as_millis() as u64
}

/// Relies on std::time::SystemTime::now and SystemTime::duration_since, as
/// `get_time_millis` does: busy-waits, re-reading the clock, until the
/// reading in milliseconds since `epoch` exceeds `last`, and returns the
/// first such reading. Blocks for as long as the clock has not advanced
/// past `last` — the documented blocking contract, with no sleep, timeout
/// or cancellation — and panics when the clock reads earlier than `epoch`.
#[verifier::external_body]
fn wait_past(epoch: &SystemTime, last: u64) -> (now: u64)
    ensures
        now > last,
{
    let mut now = get_time_millis(epoch);
    while now <= last {
        now = get_time_millis(epoch);
    }
    now
}

/// The observable state of a generator: every field but the epoch, which
/// stays fixed after construction.
pub struct GenState {
    /// The timestamp used by the most recent generation call.
    pub last_time: u64,
    /// Identifier of the host, at most 31.
    pub machine_id: u8,
    /// Identifier of the generation context within the host, at most 31.
    pub thread_id: u8,
    /// Per-millisecond sequence number, at most 4095.
    pub counter: u16,
}

/// The field ranges every generator maintains: 5-bit machine and thread
/// identifiers and a 12-bit counter.
pub open spec fn valid_state(s: GenState) -> bool {
    s.machine_id <= 31 && s.thread_id <= 31 && s.counter <= 4095
}

/// The identifier produced by the generation call that left the generator
/// in state `s`.
pub open spec fn state_id(s: GenState) -> u64 {
    encoded(s.last_time, s.machine_id, s.thread_id, s.counter)
}

/// How one blocking generation call may change the state. The clock value
/// the call read is not part of the state, so the relation admits every
/// outcome the call allows for some clock reading: either the clock still
/// showed the last-used millisecond and the counter advanced, or the
/// counter was reset for a fresh timestamp (after a busy wait when the
/// counter had wrapped).
pub open spec fn generate_step(pre: GenState, post: GenState) -> bool {
    &&& post.machine_id == pre.machine_id
    &&& post.thread_id == pre.thread_id
    &&& {
        ||| (pre.counter < 4095 && post.counter == pre.counter + 1 && post.last_time
            == pre.last_time)
        ||| (post.counter == 0 && post.last_time != pre.last_time)
    }
}

/// How one non-blocking generation call may change the state: while the
/// clock has not passed the last-used timestamp the counter advances and
/// the timestamp cannot move forward; when the counter wraps the timestamp
/// is advanced synthetically by at most one millisecond; a fresh clock
/// reading resets the counter.
pub open spec fn fuzzy_step(pre: GenState, post: GenState) -> bool {
    &&& post.machine_id == pre.machine_id
    &&& post.thread_id == pre.thread_id
    &&& {
        ||| (pre.counter < 4095 && post.counter == pre.counter + 1 && post.last_time
            <= pre.last_time)
        ||| (pre.counter == 4095 && post.counter == 0 && post.last_time <= pre.last_time + 1)
        ||| (post.counter == 0 && post.last_time > pre.last_time)
    }
}

/// Produces 64-bit identifiers that are unique per (machine_id, thread_id)
/// pair and roughly ordered by creation time.
pub struct SnowflakeGenerator {
    epoch: SystemTime,
    last_time: u64,
    machine_id: u8,
    thread_id: u8,
    counter: u16,
}

impl View for SnowflakeGenerator {
    type V = GenState;

    closed spec fn view(&self) -> GenState {
        GenState {
            last_time: self.last_time,
            machine_id: self.machine_id,
            thread_id: self.thread_id,
            counter: self.counter,
        }
    }
}

impl SnowflakeGenerator {
    /// The fixed time origin this generator measures timestamps from.
    pub closed spec fn spec_epoch(&self) -> SystemTime {
        self.epoch
    }

    /// Creates a generator that measures time from the platform's standard
    /// time origin.
    pub fn new(machine_id: u8, thread_id: u8) -> (r: Self)
        requires
            machine_id <= 31,
            thread_id <= 31,
        ensures
            valid_state(r@),
            r@.machine_id == machine_id,
            r@.thread_id == thread_id,
            r@.counter == 0,
    {
        SnowflakeGenerator::with_epoch(unix_epoch(), machine_id, thread_id)
    }

    /// Creates a generator that measures time from a caller-supplied
    /// epoch. The initial timestamp is the clock reading at construction.
    pub fn with_epoch(epoch: SystemTime, machine_id: u8, thread_id: u8) -> (r: Self)
        requires
            machine_id <= 31,
            thread_id <= 31,
        ensures
            valid_state(r@),
            r@.machine_id == machine_id,
            r@.thread_id == thread_id,
            r@.counter == 0,
            r.spec_epoch() == epoch,
    {
        let last_time: u64 = get_time_millis(&epoch);
        SnowflakeGenerator { epoch, last_time, machine_id, thread_id, counter: 0 }
    }

    /// Produces the next identifier, blocking while the current
    /// millisecond's 4096 counter values are exhausted: it then busy-waits
    /// until the clock passes the last-used timestamp, so the timestamp
    /// field never runs ahead of the clock.
    pub fn generate(&mut self) -> (r: u64)
        requires
            valid_state(old(self)@),
        ensures
            valid_state(final(self)@),
            generate_step(old(self)@, final(self)@),
            final(self).spec_epoch() == old(self).spec_epoch(),
            r == state_id(final(self)@),
    {
        let mut now = get_time_millis(&self.epoch);

        if now == self.last_time {
            self.counter = (self.counter + 1) % 4096;
            if self.counter == 0 {
                now = wait_past(&self.epoch, self.last_time);
            }
        } else {
            self.counter = 0;
        }

        self.last_time = now;

        (self.last_time << 22)
            | ((self.machine_id as u64) << 17)
            | ((self.thread_id as u64) << 12)
            | (self.counter as u64)
    }

    /// Produces the next identifier without ever blocking: when the
    /// current millisecond's counter values are exhausted the timestamp is
    /// advanced synthetically instead, so it may run ahead of the clock
    /// under sustained load.
    pub fn generate_fuzzy(&mut self) -> (r: u64)
        requires
            valid_state(old(self)@),
        ensures
            valid_state(final(self)@),
            fuzzy_step(old(self)@, final(self)@),
            final(self).spec_epoch() == old(self).spec_epoch(),
            r == state_id(final(self)@),
    {
        let mut now = get_time_millis(&self.epoch);

        if now <= self.last_time {
            self.counter = (self.counter + 1) % 4096;
            if self.counter == 0 {
                // The synthetic advance saturates at the top of the
                // timestamp range instead of overflowing.
                if now < u64::MAX {
                    now = now + 1;
                }
            }
        } else {
            self.counter = 0;
        }

        self.last_time = now;

        (self.last_time << 22)
            | ((self.machine_id as u64) << 17)
            | ((self.thread_id as u64) << 12)
            | (self.counter as u64)
    }
}

/// Consecutive blocking calls never repeat: a blocking generation step
/// never reproduces the identifier of the state it starts from, as long as
/// both timestamps fit the 42-bit time field.
pub proof fn lemma_generate_distinct(pre: GenState, post: GenState)
    requires
        valid_state(pre),
        valid_state(post),
        generate_step(pre, post),
        pre.last_time < 0x400_0000_0000,
        post.last_time < 0x400_0000_0000,
    ensures
        state_id(pre) != state_id(post),
{
    lemma_encode_decode(pre.last_time, pre.machine_id, pre.thread_id, pre.counter);
    lemma_encode_decode(post.last_time, post.machine_id, post.thread_id, post.counter);
}

/// Consecutive non-blocking calls never repeat: a non-blocking generation
/// step never reproduces the identifier of the state it starts from, as
/// long as both timestamps fit the 42-bit time field.
pub proof fn lemma_generate_fuzzy_distinct(pre: GenState, post: GenState)
    requires
        valid_state(pre),
        valid_state(post),
        fuzzy_step(pre, post),
        pre.last_time < 0x400_0000_0000,
        post.last_time < 0x400_0000_0000,
    ensures
        state_id(pre) != state_id(post),
{
    lemma_encode_decode(pre.last_time, pre.machine_id, pre.thread_id, pre.counter);
    lemma_encode_decode(post.last_time, post.machine_id, post.thread_id, post.counter);
}

/// Blocking generation is strictly increasing while the clock does not
/// move backwards: a blocking step whose new timestamp is no older than
/// the previous one produces a strictly larger identifier, as long as both
/// timestamps fit the 42-bit time field.
pub proof fn lemma_generate_monotonic(pre: GenState, post: GenState)
    requires
        valid_state(pre),
        valid_state(post),
        generate_step(pre, post),
        pre.last_time <= post.last_time,
        post.last_time < 0x400_0000_0000,
    ensures
        state_id(pre) < state_id(post),
{
    lemma_encoded_order(
        pre.last_time,
        post.last_time,
        pre.machine_id,
        pre.thread_id,
        pre.counter,
        post.counter,
    );
}

/// A run of blocking generation calls taken while the clock never moves
/// backwards yields strictly increasing — hence pairwise distinct —
/// identifiers: `states` holds the generator's state after each call of
/// the run, and any earlier identifier is smaller than any later one, as
/// long as every timestamp fits the 42-bit time field.
pub proof fn lemma_generate_run_increasing(states: Seq<GenState>, i: int, j: int)
    requires
        forall|k: int| 0 <= k < states.len() ==> valid_state(#[trigger] states[k]),
        forall|k: int|
            0 <= k < states.len() - 1 ==> generate_step(#[trigger] states[k], states[k + 1]),
        forall|k: int|
            0 <= k < states.len() - 1 ==> (#[trigger] states[k]).last_time <= states[
                k + 1
            ].last_time,
        forall|k: int| 0 <= k < states.len() ==> (#[trigger] states[k]).last_time < 0x400_0000_0000,
        0 <= i < j < states.len(),
    ensures
        state_id(states[i]) < state_id(states[j]),
    decreases j - i,
{
    if i + 1 == j {
        lemma_generate_monotonic(states[i], states[j]);
    } else {
        lemma_generate_run_increasing(states, i, j - 1);
        lemma_generate_monotonic(states[j - 1], states[j]);
    }
}

/// Generators with different (machine_id, thread_id) pairs never collide:
/// their identifiers differ whatever their timestamps and counters.
pub proof fn lemma_distinct_sources(a: GenState, b: GenState)
    requires
        valid_state(a),
        valid_state(b),
        a.machine_id != b.machine_id || a.thread_id != b.thread_id,
    ensures
        state_id(a) != state_id(b),
{
    lemma_encode_decode(a.last_time, a.machine_id, a.thread_id, a.counter);
    lemma_encode_decode(b.last_time, b.machine_id, b.thread_id, b.counter);
}

} // verus!
