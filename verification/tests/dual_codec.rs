use snowcloud::flake::dual::DualIdFlake;

type TestSnowflake = DualIdFlake<43, 4, 4, 12>;

#[test]
fn dual_properly_calculated_consts() {
    let max_timestamp: i64 = 0b1111111111111111111111111111111111111111111;
    let max_primary_id: i64 = 0b1111;
    let max_secondary_id: i64 = 0b1111;
    let max_sequence: i64 = 0b111111111111;

    let timestamp_shift: i64 = 20;
    let primary_id_shift: i64 = 16;
    let secondary_id_shift: i64 = 12;

    let timestamp_mask: i64 = 0b0_1111111111111111111111111111111111111111111_0000_0000_000000000000;
    let primary_id_mask: i64 = 0b0_0000000000000000000000000000000000000000000_1111_0000_000000000000;
    let secondary_id_mask: i64 =
        0b0_0000000000000000000000000000000000000000000_0000_1111_000000000000;
    let sequence_mask: i64 = 0b0_0000000000000000000000000000000000000000000_0000_0000_111111111111;

    assert_eq!(TestSnowflake::max_timestamp(), max_timestamp, "invalid max timestamp");
    assert_eq!(TestSnowflake::max_primary_id(), max_primary_id, "invalid max primary id");
    assert_eq!(TestSnowflake::max_secondary_id(), max_secondary_id, "invalid max secondary id");
    assert_eq!(TestSnowflake::max_sequence(), max_sequence, "invalid max sequence");

    assert_eq!(TestSnowflake::timestamp_shift(), timestamp_shift, "invalid timestamp shift");
    assert_eq!(TestSnowflake::primary_id_shift(), primary_id_shift, "invalid primary id shift");
    assert_eq!(
        TestSnowflake::secondary_id_shift(),
        secondary_id_shift,
        "invalid secondary id shift"
    );

    assert_eq!(TestSnowflake::timestamp_mask(), timestamp_mask, "invalid timestamp mask");
    assert_eq!(TestSnowflake::primary_id_mask(), primary_id_mask, "invalid primary id mask");
    assert_eq!(TestSnowflake::secondary_id_mask(), secondary_id_mask, "invalid secondary id mask");
    assert_eq!(TestSnowflake::sequence_mask(), sequence_mask, "invalid sequence mask");
}

#[test]
fn dual_to_int_and_back() {
    let flake = TestSnowflake::from_parts(1, 1, 1, 1).unwrap();

    let to_int: i64 = flake.id();
    let to_flake: TestSnowflake = TestSnowflake::try_from(&to_int).unwrap();

    assert_eq!(to_flake, flake);
}

#[test]
fn dual_properly_shifted_integers() {
    let flake = TestSnowflake::from_parts(1, 1, 1, 1).unwrap();

    let expected: i64 = 0b0_0000000000000000000000000000000000000000001_0001_0001_000000000001;

    assert_eq!(
        flake.id(),
        expected,
        "impropperly formatted snowflake.\n{:064b}\n{:064b}\n{:#?}",
        expected,
        flake.id(),
        flake
    );
}

#[test]
fn dual_from_parts_rejects_out_of_range() {
    assert!(matches!(TestSnowflake::from_parts(-1, 1, 1, 1), Err(snowcloud::Error::EpochInvalid)));
    assert!(matches!(TestSnowflake::from_parts(1, 16, 1, 1), Err(snowcloud::Error::IdSegInvalid)));
    assert!(matches!(TestSnowflake::from_parts(1, 1, 16, 1), Err(snowcloud::Error::IdSegInvalid)));
    assert!(matches!(
        TestSnowflake::from_parts(1, 1, 1, 4096),
        Err(snowcloud::Error::SequenceInvalid)
    ));
}
