use scoretracker_core::timestamp::{Error, NsTimestamp};

#[test]
fn as_secs_rounds_towards_minus_infinity() {
    assert_eq!(NsTimestamp::from_nanos(-3_000_000_000).as_secs(), -3);
    assert_eq!(NsTimestamp::from_nanos(-2_999_999_999).as_secs(), -3);
    assert_eq!(NsTimestamp::from_nanos(-2_000_000_001).as_secs(), -3);
    assert_eq!(NsTimestamp::from_nanos(-2_000_000_000).as_secs(), -2);
    assert_eq!(NsTimestamp::from_nanos(-1).as_secs(), -1);
    assert_eq!(NsTimestamp::from_nanos(0).as_secs(), 0);
    assert_eq!(NsTimestamp::from_nanos(999_999_999).as_secs(), 0);
    assert_eq!(NsTimestamp::from_nanos(1_000_000_000).as_secs(), 1);
    assert_eq!(NsTimestamp::from_nanos(3_000_000_000).as_secs(), 3);
}

#[test]
fn as_millis_and_micros_round_towards_minus_infinity() {
    assert_eq!(NsTimestamp::from_nanos(-1_000_001).as_millis(), -2);
    assert_eq!(NsTimestamp::from_nanos(-1_000_000).as_millis(), -1);
    assert_eq!(NsTimestamp::from_nanos(999_999).as_millis(), 0);
    assert_eq!(NsTimestamp::from_nanos(1_999_999).as_millis(), 1);
    assert_eq!(NsTimestamp::from_nanos(-1_001).as_micros(), -2);
    assert_eq!(NsTimestamp::from_nanos(-1_000).as_micros(), -1);
    assert_eq!(NsTimestamp::from_nanos(999).as_micros(), 0);
    assert_eq!(NsTimestamp::from_nanos(2_001).as_micros(), 2);
}

#[test]
fn from_units_scale_exactly() {
    assert_eq!(NsTimestamp::from_secs(1234).as_nanos(), 1_234_000_000_000);
    assert_eq!(NsTimestamp::from_secs(-1234).as_nanos(), -1_234_000_000_000);
    assert_eq!(NsTimestamp::from_millis(1234).as_nanos(), 1_234_000_000);
    assert_eq!(NsTimestamp::from_millis(-1234).as_nanos(), -1_234_000_000);
    assert_eq!(NsTimestamp::from_micros(1234).as_nanos(), 1_234_000);
    assert_eq!(NsTimestamp::from_micros(-1234).as_nanos(), -1_234_000);
    assert_eq!(NsTimestamp::from_nanos(-7).as_nanos(), -7);
}

#[test]
fn try_from_units_report_overflow() {
    assert_eq!(
        NsTimestamp::try_from_secs(1234).unwrap().as_nanos(),
        1_234_000_000_000
    );
    assert!(matches!(
        NsTimestamp::try_from_secs(i128::MAX),
        Err(Error::OutOfRange)
    ));
    assert_eq!(
        NsTimestamp::try_from_millis(-5).unwrap().as_nanos(),
        -5_000_000
    );
    assert!(matches!(
        NsTimestamp::try_from_millis(i128::MAX),
        Err(Error::OutOfRange)
    ));
    assert_eq!(NsTimestamp::try_from_micros(9).unwrap().as_nanos(), 9_000);
    assert!(matches!(
        NsTimestamp::try_from_micros(i128::MIN),
        Err(Error::OutOfRange)
    ));
}

#[test]
fn invert_with_origin_mirrors_time() {
    let origin = NsTimestamp::from_secs(5);
    let later = NsTimestamp::from_nanos(7_000_000_000);
    assert_eq!(later.invert_with_origin(origin), NsTimestamp::from_secs(3));
    let twelfth = NsTimestamp::from_secs(12);
    assert_eq!(
        twelfth.invert_with_origin(NsTimestamp::from_nanos(0)),
        NsTimestamp::from_secs(-12)
    );
}

#[test]
fn now_is_after_the_epoch_on_this_machine() {
    let t = NsTimestamp::now();
    assert!(t.as_nanos() > 0);
}
