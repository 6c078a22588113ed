use tsp::outcome::Outcome;
use tsp::process::{go, FmtDate};
use tsp::unit::UtcInstant;

#[test]
fn test_go() {
    let collected = go(
        vec!["tsp".to_string(), "1337".to_string(), "errful".to_string()],
        "%a, %d %b %Y %H:%M:%S %z".to_string(),
        "UTC".to_string(),
    )
    .unwrap();

    assert_eq!(
        collected,
        vec![
            Outcome::new("1337".to_string()).set("Thu, 01 Jan 1970 00:22:17 +0000".to_string()),
            Outcome::new("errful".to_string()).set("can't interpret the value".to_string()),
        ]
    );
}

#[test]
fn test_go_no_values() {
    let err = go(
        vec!["tsp".to_string()],
        "%Y-%m-%d".to_string(),
        "UTC".to_string(),
    )
    .unwrap_err();
    assert_eq!(
        err.message(),
        "tsp expects at least one value to process"
    );
}

fn nanos_of(s: &str) -> i64 {
    chrono::DateTime::parse_from_str(s, "%Y-%m-%d %H:%M:%S %z")
        .unwrap()
        .timestamp_nanos_opt()
        .unwrap()
}

#[test]
fn test_fmtdate_implementation() {
    let nanos = nanos_of("2025-09-23 20:00:00 +00:00");
    let fmt_date = FmtDate::new(
        UtcInstant { nanos },
        "%Y-%m-%d".to_string(),
        "UTC".to_string(),
    );
    assert_eq!("2025-09-23", fmt_date.render());
}

#[test]
fn test_fmtdate_implementation_with_tz() {
    // 23:30 UTC is already past midnight in Paris (+1/+2 offset)
    let nanos = nanos_of("2025-09-23 23:30:00 +00:00");
    let fmt_date = FmtDate::new(
        UtcInstant { nanos },
        "%Y-%m-%d".to_string(),
        "Europe/Paris".to_string(),
    );
    assert_eq!("2025-09-24", fmt_date.render());
}

#[test]
fn test_round_trip_render() {
    // rendering the instant interpreted from an `n`-prefixed token
    // equals formatting the equivalent date-time in that zone directly
    let nanos: i64 = 1_758_670_200_000_000_000;
    let token = format!("n{}", nanos);
    let instant = tsp::value::ts_from_str(token).unwrap();
    let via_library = FmtDate::new(
        instant,
        "%Y-%m-%d".to_string(),
        "Europe/Paris".to_string(),
    )
    .render();

    let direct = chrono::DateTime::from_timestamp_nanos(nanos)
        .with_timezone(&chrono_tz::Europe::Paris)
        .format("%Y-%m-%d")
        .to_string();

    assert_eq!(via_library, direct);
    assert_eq!(via_library, "2025-09-24");
}
