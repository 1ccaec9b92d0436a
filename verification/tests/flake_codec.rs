use snowcloud::flake::Snowflake;

type TestSnowflake = Snowflake<43, 8, 12>;

#[test]
fn flake_properly_calculated_consts() {
    let max_timestamp: i64 = 0b1111111111111111111111111111111111111111111;
    let max_primary_id: i64 = 0b11111111;
    let max_sequence: i64 = 0b111111111111;

    let timestamp_shift: i64 = 8 + 12;
    let primary_id_shift: i64 = 12;

    let timestamp_mask: i64 = 0b0_1111111111111111111111111111111111111111111_00000000_000000000000;
    let primary_id_mask: i64 = 0b0_0000000000000000000000000000000000000000000_11111111_000000000000;
    let sequence_mask: i64 = 0b0_0000000000000000000000000000000000000000000_00000000_111111111111;

    assert_eq!(TestSnowflake::max_timestamp(), max_timestamp, "invalid max timestamp");
    assert_eq!(TestSnowflake::max_primary_id(), max_primary_id, "invalid max primary id");
    assert_eq!(TestSnowflake::max_sequence(), max_sequence, "invalid max sequence");

    assert_eq!(TestSnowflake::timestamp_shift(), timestamp_shift, "invalid timestamp shift");
    assert_eq!(TestSnowflake::primary_id_shift(), primary_id_shift, "invalid primary id shift");

    assert_eq!(TestSnowflake::timestamp_mask(), timestamp_mask, "invalid timestamp mask");
    assert_eq!(TestSnowflake::primary_id_mask(), primary_id_mask, "invalid primary id mask");
    assert_eq!(TestSnowflake::sequence_mask(), sequence_mask, "invalid sequence mask");
}

#[test]
fn flake_to_int_and_back() {
    let flake = TestSnowflake::from_parts(1, 1, 1).unwrap();

    let to_int: i64 = flake.id();
    let to_flake: TestSnowflake = TestSnowflake::try_from(&to_int).unwrap();

    assert_eq!(to_flake, flake);
}

#[test]
fn flake_properly_shifted_integers() {
    let flake = TestSnowflake::from_parts(1, 1, 1).unwrap();

    let expected: i64 = 0b00000000000000000000000000000000000000000001_00000001_000000000001;

    assert_eq!(
        flake.id(),
        expected,
        "impropperly formatted snowflake.\n{:064b}\n{:064b}\n{:#?}",
        expected,
        flake.id(),
        flake
    );
}

#[test]
fn flake_from_parts_rejects_out_of_range() {
    assert!(matches!(TestSnowflake::from_parts(-1, 1, 1), Err(snowcloud::Error::EpochInvalid)));
    assert!(matches!(
        TestSnowflake::from_parts(8796093022208, 1, 1),
        Err(snowcloud::Error::EpochInvalid)
    ));
    assert!(matches!(TestSnowflake::from_parts(1, -1, 1), Err(snowcloud::Error::PrimaryIdInvalid)));
    assert!(matches!(TestSnowflake::from_parts(1, 256, 1), Err(snowcloud::Error::PrimaryIdInvalid)));
    assert!(matches!(TestSnowflake::from_parts(1, 1, -1), Err(snowcloud::Error::SequenceInvalid)));
    assert!(matches!(TestSnowflake::from_parts(1, 1, 4096), Err(snowcloud::Error::SequenceInvalid)));
}

#[test]
fn flake_try_from_rejects_negative() {
    assert!(matches!(TestSnowflake::try_from(&-1), Err(snowcloud::Error::InvalidId)));
}

#[test]
fn flake_round_trip_edges() {
    let max_ts: i64 = TestSnowflake::max_timestamp();
    let max_pid: i64 = TestSnowflake::max_primary_id();
    let max_seq: i64 = TestSnowflake::max_sequence();

    for parts in [(0, 0, 0), (max_ts, max_pid, max_seq), (max_ts, 0, 1), (0, max_pid, max_seq)] {
        let flake = TestSnowflake::from_parts(parts.0, parts.1, parts.2).unwrap();
        let back = TestSnowflake::try_from(&flake.id()).unwrap();
        assert_eq!(back.into_parts(), parts);
        assert!(flake.id() >= 0, "sign bit must stay clear");
    }
}
