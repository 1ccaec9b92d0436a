use std::collections::HashSet;

use snowcloud::cloud::common::{step, Counts};
use snowcloud::cloud::Generator;
use snowcloud::flake::segments::Segments;
use snowcloud::flake::signed::SingleIdFlake;
use snowcloud::traits::NextAvailId;
use snowcloud::wait::{blocking_next_id, blocking_next_id_mut};
use snowcloud::{Dur, Error, MutexGenerator};

const START_TIME: u64 = 1679587200000;
const OLD_START_TIME: u64 = 1679082337000;
const MACHINE_ID: i64 = 1;

#[test]
fn sanity_check() {
    type MyFlake = SingleIdFlake<43, 16, 4>;
    type MyCloud = Generator<MyFlake>;

    let mut gen = MyCloud::new(START_TIME, Segments::<i64, 1>::from_parts(1)).unwrap();

    println!("{:?}", gen.ids());

    for _ in 0..(MyFlake::max_sequence() * 3) {
        let Some(result) = blocking_next_id_mut(&mut gen, 2) else {
            panic!("ran out of attempts to get a new snowflake");
        };

        let flake = result.expect("failed to generate snowflake");

        println!("{}", flake.id());
    }
}

#[test]
fn single_thread_blocking_next_id() {
    type MyFlake = SingleIdFlake<43, 8, 12>;
    let cloud: MutexGenerator<MyFlake> =
        MutexGenerator::new(OLD_START_TIME, Segments::<i64, 1>::from_parts(MACHINE_ID)).unwrap();
    let mut previous = None;

    for _ in 0..(MyFlake::max_sequence() as usize * 3) {
        let Some(result) = blocking_next_id(&cloud, 2) else {
            panic!("ran out of attempts. previous flake: {:#?}", previous);
        };

        previous = Some(result.expect("failed to generate snowflake"));
    }
}

#[test]
fn unique_ids_exclusive_generator() {
    type MyFlake = SingleIdFlake<43, 8, 12>;
    let mut cloud: Generator<MyFlake> =
        Generator::new(OLD_START_TIME, Segments::<i64, 1>::from_parts(MACHINE_ID)).unwrap();

    let mut seen: HashSet<i64> = HashSet::new();
    for _ in 0..8192usize {
        let Some(result) = blocking_next_id_mut(&mut cloud, 3) else {
            panic!("ran out of attempts to get a new snowflake");
        };
        let flake = result.expect("failed to generate snowflake");
        assert!(seen.insert(flake.id()), "generated a duplicate id");
    }
}

#[test]
fn unique_ids_shared_generator_clones() {
    type MyFlake = SingleIdFlake<43, 8, 12>;
    let cloud: MutexGenerator<MyFlake> =
        MutexGenerator::new(OLD_START_TIME, Segments::<i64, 1>::from_parts(MACHINE_ID)).unwrap();
    let other = cloud.clone();

    let mut seen: HashSet<i64> = HashSet::new();
    for _ in 0..4096usize {
        let a = blocking_next_id(&cloud, 3)
            .expect("ran out of attempts")
            .expect("failed to generate snowflake");
        let b = blocking_next_id(&other, 3)
            .expect("ran out of attempts")
            .expect("failed to generate snowflake");
        assert!(seen.insert(a.id()), "clone and original minted a duplicate id");
        assert!(seen.insert(b.id()), "clone and original minted a duplicate id");
    }
}

#[test]
fn generated_flake_keeps_duration() {
    type MyFlake = SingleIdFlake<43, 8, 12>;
    let mut cloud: Generator<MyFlake> =
        Generator::new(OLD_START_TIME, Segments::<i64, 1>::from_parts(MACHINE_ID)).unwrap();
    let flake = cloud.next_id().expect("failed to generate snowflake");
    let dur = flake.duration().expect("freshly generated flakes carry their creation instant");
    assert_eq!(dur.as_millis() as i64, *flake.timestamp());
    assert!(*flake.sequence() >= 1);
    assert_eq!(*flake.primary_id(), MACHINE_ID);
}

#[test]
fn future_epoch_is_rejected() {
    type MyFlake = SingleIdFlake<43, 8, 12>;
    // 2077/10/23 9:00:00 in milliseconds, far ahead of the clock.
    let result: Result<Generator<MyFlake>, Error> =
        Generator::new(3402205200000, Segments::<i64, 1>::from_parts(1));
    assert!(matches!(result, Err(Error::EpochInvalid)));

    let shared: Result<MutexGenerator<MyFlake>, Error> =
        MutexGenerator::new(3402205200000, Segments::<i64, 1>::from_parts(1));
    assert!(matches!(shared, Err(Error::EpochInvalid)));
}

#[test]
fn out_of_range_epoch_is_rejected() {
    type MyFlake = SingleIdFlake<43, 8, 12>;
    // Beyond the 43-bit timestamp field.
    let result: Result<Generator<MyFlake>, Error> =
        Generator::new(9000000000000, Segments::<i64, 1>::from_parts(1));
    assert!(matches!(result, Err(Error::EpochInvalid)));
}

#[test]
fn zero_segment_is_rejected() {
    type MyFlake = SingleIdFlake<43, 8, 12>;
    let result: Result<Generator<MyFlake>, Error> = Generator::new(START_TIME, Segments::<i64, 1>::from_parts(0));
    assert!(matches!(result, Err(Error::IdSegInvalid)));

    let shared: Result<MutexGenerator<MyFlake>, Error> =
        MutexGenerator::new(START_TIME, Segments::<i64, 1>::from_parts(0));
    assert!(matches!(shared, Err(Error::IdSegInvalid)));
}

#[test]
fn exhausted_timestamp_field_is_final() {
    // A one-bit timestamp field was exhausted two milliseconds after its
    // epoch; the clock is far past that.
    type TinyFlake = SingleIdFlake<1, 50, 12>;
    let mut cloud: Generator<TinyFlake> = Generator::new(0, Segments::<i64, 1>::from_parts(1)).unwrap();
    assert!(matches!(cloud.next_id(), Err(Error::TimestampMaxReached)));
}

#[test]
fn sequence_exhaustion_in_one_millisecond() {
    let max_ts: u64 = 8796093022207;
    let max_seq: u64 = 15;
    let ts = Dur::from_millis(5);
    let mut counts = Counts { sequence: 1, prev_time: ts };

    for expect in 1..=max_seq {
        match step(&mut counts, &ts, max_ts, max_seq) {
            Ok(seq) => assert_eq!(seq, expect, "sequence values must count up from one"),
            Err(err) => panic!("unexpected error before exhaustion: {:?}", err),
        }
    }

    match step(&mut counts, &ts, max_ts, max_seq) {
        Err(Error::SequenceMaxReached(wait)) => {
            assert_eq!(wait.as_secs(), 0);
            assert!(wait.subsec_nanos() > 0, "wait estimate must be positive");
            assert!(wait.subsec_nanos() <= 1_000_000, "wait estimate is at most one millisecond");
        },
        other => panic!("expected SequenceMaxReached, got {:?}", other),
    }
}

#[test]
fn step_resets_sequence_on_new_millisecond() {
    let max_ts: u64 = 8796093022207;
    let max_seq: u64 = 4095;
    let mut counts = Counts { sequence: 7, prev_time: Dur::from_millis(5) };

    let next = Dur::from_millis(6);
    match step(&mut counts, &next, max_ts, max_seq) {
        Ok(seq) => assert_eq!(seq, 1, "a new millisecond resets the sequence"),
        Err(err) => panic!("unexpected error: {:?}", err),
    }
    assert_eq!(counts.sequence, 2);
    assert_eq!(counts.prev_time, next);

    // The timestamp field limit is a hard stop.
    let beyond = Dur::from_millis(8796093022208);
    assert!(matches!(step(&mut counts, &beyond, max_ts, max_seq), Err(Error::TimestampMaxReached)));
}

#[test]
fn error_wait_hints() {
    let recoverable = Error::SequenceMaxReached(Dur::from_nanos(250));
    assert_eq!(recoverable.next_avail_id(), Some(&Dur::from_nanos(250)));
    assert!(Error::TimestampMaxReached.next_avail_id().is_none());
    assert!(Error::EpochInvalid.next_avail_id().is_none());
    assert_eq!(Error::MutexError.message(), "mutex error");
}
