use snowflake::Snowflake;
use snowflake::SnowflakeGenerator;

#[test]
fn test_conversion() {
    let mut generator = SnowflakeGenerator::new(0, 0);
    let id = generator.generate();
    let snowflake = Snowflake::from(id);
    assert_eq!(id, u64::from(snowflake));
}

#[test]
fn round_trip_typical_fields() {
    let original = Snowflake { time: 123_456_789, machine_id: 5, thread_id: 7, counter: 89 };
    let packed = u64::from(original);
    let decoded = Snowflake::from(packed);
    assert_eq!(decoded.time, 123_456_789);
    assert_eq!(decoded.machine_id, 5);
    assert_eq!(decoded.thread_id, 7);
    assert_eq!(decoded.counter, 89);
}

#[test]
fn round_trip_boundary_fields() {
    let original = Snowflake {
        time: (1u64 << 42) - 1,
        machine_id: 31,
        thread_id: 31,
        counter: 4095,
    };
    let packed = u64::from(original);
    assert_eq!(packed, u64::MAX);
    let decoded = Snowflake::from(packed);
    assert_eq!(decoded.time, (1u64 << 42) - 1);
    assert_eq!(decoded.machine_id, 31);
    assert_eq!(decoded.thread_id, 31);
    assert_eq!(decoded.counter, 4095);
}

#[test]
fn decode_zero() {
    let decoded = Snowflake::from(0u64);
    assert_eq!(decoded.time, 0);
    assert_eq!(decoded.machine_id, 0);
    assert_eq!(decoded.thread_id, 0);
    assert_eq!(decoded.counter, 0);
    assert_eq!(u64::from(decoded), 0);
}

#[test]
fn decode_all_ones() {
    let decoded = Snowflake::from(u64::MAX);
    assert_eq!(decoded.time, u64::MAX >> 22);
    assert_eq!(decoded.machine_id, 31);
    assert_eq!(decoded.thread_id, 31);
    assert_eq!(decoded.counter, 4095);
    // The decoded time field is exactly 42 bits, so re-packing is exact.
    assert_eq!(u64::from(decoded), u64::MAX);
}

#[test]
fn encode_beyond_42_time_bits_corrupts() {
    // Packing does not mask the time field: a time of 2^42 is lost
    // entirely, colliding with the all-zero identifier.
    let oversized = Snowflake { time: 1u64 << 42, machine_id: 0, thread_id: 0, counter: 0 };
    let packed = u64::from(oversized);
    assert_eq!(packed, 0);
    assert_eq!(Snowflake::from(packed).time, 0);
}

#[test]
fn encode_single_fields() {
    assert_eq!(u64::from(Snowflake { time: 1, machine_id: 0, thread_id: 0, counter: 0 }), 1u64 << 22);
    assert_eq!(u64::from(Snowflake { time: 0, machine_id: 1, thread_id: 0, counter: 0 }), 1u64 << 17);
    assert_eq!(u64::from(Snowflake { time: 0, machine_id: 0, thread_id: 1, counter: 0 }), 1u64 << 12);
    assert_eq!(u64::from(Snowflake { time: 0, machine_id: 0, thread_id: 0, counter: 1 }), 1);
}
