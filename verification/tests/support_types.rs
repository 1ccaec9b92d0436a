use snowcloud::flake::segments::Segments;
use snowcloud::flake::signed::SingleIdFlake;
use snowcloud::pg::read_i64;
use snowcloud::traits::IdBuilder;
use snowcloud::Dur;

#[test]
fn segments_hold_their_parts() {
    let one: Segments<i64, 1> = Segments::<i64, 1>::from_parts(7);
    assert_eq!(*one.primary(), 7);
    assert_eq!(one.into_inner(), [7]);

    let two: Segments<i64, 2> = Segments::<i64, 2>::from_parts(3, 4);
    assert_eq!(*two.primary(), 3);
    assert_eq!(*two.secondary(), 4);
    assert_eq!(*two.inner(), [3, 4]);

    let three: Segments<u64, 3> = Segments::<u64, 3>::from_parts(1, 2, 3);
    assert_eq!(*three.primary(), 1);
    assert_eq!(*three.secondary(), 2);
    assert_eq!(*three.tertiary(), 3);
    assert_eq!(three.into_inner(), [1, 2, 3]);
}

#[test]
fn dur_millisecond_arithmetic() {
    let d = Dur::from_millis(1679587200123);
    assert_eq!(d.as_millis(), 1679587200123);
    assert_eq!(d.as_secs(), 1679587200);
    assert_eq!(d.subsec_nanos(), 123_000_000);

    let n = Dur::from_nanos(2_500_000_123);
    assert_eq!(n.as_secs(), 2);
    assert_eq!(n.subsec_nanos(), 500_000_123);
    assert_eq!(n.as_millis(), 2500);
}

#[test]
fn dur_subtraction_and_order() {
    let a = Dur::from_millis(2000);
    let b = Dur::from_nanos(1_999_999_999);
    assert!(b.lt(&a));
    assert!(!a.lt(&b));

    let diff = a.checked_sub(&b).unwrap();
    assert_eq!(diff.as_secs(), 0);
    assert_eq!(diff.subsec_nanos(), 1);

    assert!(b.checked_sub(&a).is_none());
    assert!(a.same_millis(&Dur::from_nanos(2_000_999_000)));
    assert!(!a.same_millis(&b));
}

#[test]
fn read_i64_big_endian() {
    let bytes: [u8; 8] = [0, 0, 0, 0, 0, 0x10, 0x10, 0x01];
    assert_eq!(read_i64(&bytes), Some(1052673));

    let max: [u8; 8] = [0x7f, 0xff, 0xff, 0xff, 0xff, 0xff, 0xff, 0xff];
    assert_eq!(read_i64(&max), Some(i64::MAX));

    let negative: [u8; 8] = [0x80, 0, 0, 0, 0, 0, 0, 0];
    assert_eq!(read_i64(&negative), Some(i64::MIN));

    assert_eq!(read_i64(&[1, 2, 3]), None);
    assert_eq!(read_i64(&[]), None);
}

#[test]
fn builder_assembles_flakes() {
    type MyFlake = SingleIdFlake<43, 8, 12>;

    let segs: Segments<i64, 1> = Segments::<i64, 1>::from_parts(1);
    let mut builder = MyFlake::builder(&segs);
    assert!(builder.with_ts(1));
    assert!(builder.with_seq(1));
    assert!(!builder.with_ts(8796093022208));
    assert!(!builder.with_seq(4096));
    builder.with_dur(Dur::from_millis(1));

    let flake = builder.build();
    assert_eq!(flake.id(), 1052673);
    assert_eq!(flake.duration(), Some(&Dur::from_millis(1)));
}
