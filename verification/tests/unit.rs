use tsp::unit::{Unit, UnitParseError, UtcInstant};

#[test]
fn test_from_str_empty() {
    let u = Unit::from_str("").unwrap();
    assert_eq!(u, Unit::Secs);
}

#[test]
fn test_from_str_seconds() {
    let u = Unit::from_str("s").unwrap();
    assert_eq!(u, Unit::Secs);
}

#[test]
fn test_from_str_millis() {
    let u = Unit::from_str("m").unwrap();
    assert_eq!(u, Unit::Millis);
}

#[test]
fn test_from_str_micros() {
    let u = Unit::from_str("u").unwrap();
    assert_eq!(u, Unit::Micros);
}

#[test]
fn test_from_str_nanos() {
    let u = Unit::from_str("n").unwrap();
    assert_eq!(u, Unit::Nanos);
}

#[test]
fn test_from_str_err() {
    let error = Unit::from_str("x").unwrap_err();
    assert_eq!(error, UnitParseError)
}

#[test]
fn test_get_parser() {
    // each granularity scales by its own factor, and a scaled value
    // that leaves the instant's range is rejected
    let expected_table: Vec<(Unit, i64, Option<i64>)> = vec![
        (Unit::Secs, 2, Some(2_000_000_000)),
        (Unit::Millis, 2, Some(2_000_000)),
        (Unit::Micros, 2, Some(2_000)),
        (Unit::Nanos, 2, Some(2)),
        (Unit::Secs, -2, Some(-2_000_000_000)),
        (Unit::Secs, 9_223_372_036, Some(9_223_372_036_000_000_000)),
        (Unit::Secs, 9_223_372_037, None),
        (Unit::Nanos, i64::MAX, Some(i64::MAX)),
        (Unit::Nanos, i64::MIN, Some(i64::MIN)),
    ];

    for (u, v, n) in expected_table.iter() {
        assert_eq!(u.to_instant(*v), n.map(|nanos| UtcInstant { nanos }));
    }
}
