use snowcloud::flake::unsigned::SingleIdFlake;

type TestSnowflake = SingleIdFlake<43, 8, 12>;

#[test]
fn u64_single_properly_calculated_consts() {
    let max_timestamp: u64 = 0b1111111111111111111111111111111111111111111;
    let max_primary_id: u64 = 0b11111111;
    let max_sequence: u64 = 0b111111111111;

    let timestamp_shift: u64 = 8 + 12;
    let primary_id_shift: u64 = 12;

    let timestamp_mask: u64 = 0b0_1111111111111111111111111111111111111111111_00000000_000000000000;
    let primary_id_mask: u64 = 0b0_0000000000000000000000000000000000000000000_11111111_000000000000;
    let sequence_mask: u64 = 0b0_0000000000000000000000000000000000000000000_00000000_111111111111;

    assert_eq!(TestSnowflake::max_timestamp(), max_timestamp, "invalid max timestamp");
    assert_eq!(TestSnowflake::max_primary_id(), max_primary_id, "invalid max primary id");
    assert_eq!(TestSnowflake::max_sequence(), max_sequence, "invalid max sequence");

    assert_eq!(TestSnowflake::timestamp_shift(), timestamp_shift, "invalid timestamp shift");
    assert_eq!(TestSnowflake::primary_id_shift(), primary_id_shift, "invalid primary id shift");

    assert_eq!(TestSnowflake::timestamp_mask(), timestamp_mask, "invalid timestamp mask");
    assert_eq!(TestSnowflake::primary_id_mask(), primary_id_mask, "invalid primary id mask");
    assert_eq!(TestSnowflake::sequence_mask(), sequence_mask, "invalid sequence mask");
}

#[test]
fn u64_single_to_int_and_back() {
    let flake = TestSnowflake::from_parts(1, 1, 1).unwrap();

    let to_int: u64 = flake.id();
    let to_flake: TestSnowflake = TestSnowflake::try_from(&to_int).unwrap();

    assert_eq!(to_flake, flake);
}

#[test]
fn u64_single_properly_shifted_integers() {
    let flake = TestSnowflake::from_parts(1, 1, 1).unwrap();

    let expected: u64 = 0b00000000000000000000000000000000000000000001_00000001_000000000001;

    assert_eq!(
        flake.id(),
        expected,
        "impropperly formatted snowflake.\n{:064b}\n{:064b}\n{:#?}",
        expected,
        flake.id(),
        flake
    );
}

#[test]
fn u64_single_from_parts_rejects_out_of_range() {
    assert!(matches!(
        TestSnowflake::from_parts(8796093022208, 1, 1),
        Err(snowcloud::Error::EpochInvalid)
    ));
    assert!(matches!(TestSnowflake::from_parts(1, 256, 1), Err(snowcloud::Error::IdSegInvalid)));
    assert!(matches!(TestSnowflake::from_parts(1, 1, 4096), Err(snowcloud::Error::SequenceInvalid)));
}

#[test]
fn u64_single_full_width_layout() {
    // With no sign bit to protect, the widths may use all 64 bits.
    type WideFlake = SingleIdFlake<44, 8, 12>;

    let max_ts: u64 = WideFlake::max_timestamp();
    let flake = WideFlake::from_parts(max_ts, 255, 4095).unwrap();
    let back = WideFlake::try_from(&flake.id()).unwrap();
    assert_eq!(back.into_parts(), (max_ts, 255, 4095));
}
