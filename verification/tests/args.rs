use tsp::args::{
    cleanup, get_dump_fn, get_fmt_str, get_ts_strings, get_tz, validate_fmt, validate_tz,
    ArgsError,
};

const DEFAULT_DATE_FORMAT: &str = "%a, %d %b %Y %H:%M:%S %z";

#[test]
fn test_no_args() {
    let no_args: Vec<String> = vec!["tsp".to_string()];
    let error = get_ts_strings(no_args).unwrap_err();
    assert_eq!(
        error,
        ArgsError::NotEnough("tsp expects at least one value to process".into())
    );
}

#[test]
fn test_some_args() {
    let some_args: Vec<String> = vec!["tsp".to_string(), "argA".to_string(), "argB".to_string()];
    let remaining = get_ts_strings(some_args).unwrap();
    assert_eq!(remaining, vec!["argA".to_string(), "argB".to_string()]);
}

#[test]
fn test_get_dump_fn_text() {
    // the mode itself is checked in the dump tests; here we check the
    // effect of the call on the arguments passed to it.
    let mut some_args: Vec<String> = vec!["tsp".to_string(), "argA".to_string()];
    let _ = get_dump_fn(&mut some_args);
    assert_eq!(some_args, vec!["tsp".to_string(), "argA".to_string()]);
}

#[test]
fn test_get_dump_fn_json() {
    // same as above
    let mut some_args: Vec<String> =
        vec!["tsp".to_string(), "--json".to_string(), "argA".to_string()];
    let _ = get_dump_fn(&mut some_args);
    assert_eq!(some_args, vec!["tsp".to_string(), "argA".to_string()]);
}

#[test]
fn test_get_dump_fn_json_short() {
    // same as above
    let mut some_args: Vec<String> = vec!["tsp".to_string(), "-j".to_string(), "argA".to_string()];
    let _ = get_dump_fn(&mut some_args);
    assert_eq!(some_args, vec!["tsp".to_string(), "argA".to_string()]);
}

#[test]
fn test_get_fmt_str() {
    let mut some_args: Vec<String> = vec![
        "tsp".to_string(),
        "-F".to_string(),
        "a-format".to_string(),
        "argA".to_string(),
    ];
    let fmt_str = get_fmt_str(&mut some_args);
    assert_eq!(some_args, vec!["tsp".to_string(), "argA".to_string()]);
    assert_eq!(fmt_str, "a-format".to_string());
}

#[test]
fn test_get_fmt_str_default() {
    let mut some_args: Vec<String> =
        vec!["tsp".to_string(), "argA".to_string(), "-F".to_string()];
    let fmt_str = get_fmt_str(&mut some_args);
    assert_eq!(fmt_str, DEFAULT_DATE_FORMAT.to_string());
    assert_eq!(some_args, vec!["tsp".to_string(), "argA".to_string()]);
}

#[test]
fn test_validate_fmt_ok() {
    let fmt = "%Y%m%d".to_string();
    let got = validate_fmt(fmt.to_owned());
    assert_eq!(got, fmt);
}

#[test]
fn test_validate_fmt_err() {
    let fmt = "%N".to_string();
    let got = validate_fmt(fmt.to_owned());
    assert_eq!(got, DEFAULT_DATE_FORMAT);
}

#[test]
fn test_validate_fmt_twice() {
    // validating twice yields what validating once does, on a valid
    // pattern and on an invalid one
    let valid = "%Y-%m-%d".to_string();
    let once = validate_fmt(valid.to_owned());
    let twice = validate_fmt(once.to_owned());
    assert_eq!(twice, once);

    let invalid = "%N".to_string();
    let once = validate_fmt(invalid.to_owned());
    let twice = validate_fmt(once.to_owned());
    assert_eq!(twice, once);
}

#[test]
fn test_get_tz() {
    let mut some_args: Vec<String> = vec![
        "tsp".to_string(),
        "-T".to_string(),
        "Europe/Paris".to_string(),
        "argA".to_string(),
    ];
    let tz = get_tz(&mut some_args);
    assert_eq!(some_args, vec!["tsp".to_string(), "argA".to_string()]);
    assert_eq!(tz, "Europe/Paris".to_string());
}

#[test]
fn test_get_fmt_tz_default() {
    let mut some_args: Vec<String> = vec!["tsp".to_string(), "argA".to_string()];
    let tz = get_tz(&mut some_args);
    assert_eq!(tz, "UTC".to_string());
    assert_eq!(some_args, vec!["tsp".to_string(), "argA".to_string()]);
}

#[test]
fn test_get_fmt_tz_missing_value() {
    let mut some_args: Vec<String> =
        vec!["tsp".to_string(), "argA".to_string(), "-T".to_string()];
    let tz = get_tz(&mut some_args);
    assert_eq!(tz, "UTC".to_string());
    assert_eq!(some_args, vec!["tsp".to_string(), "argA".to_string()]);
}

#[test]
fn test_validate_tz_ok() {
    let tz_str = "Europe/Paris".to_string();
    let tz = validate_tz(tz_str.to_owned());
    assert_eq!(tz, "Europe/Paris".to_string());
}

#[test]
fn test_validate_tz_err() {
    let tz_str = "Atlantis/Atlantis_City".to_string();
    let tz = validate_tz(tz_str.to_owned());
    assert_eq!(tz, "UTC".to_string());
}

#[test]
fn test_no_cleanup() {
    let mut some_args: Vec<String> =
        vec!["tsp".to_string(), "argA".to_string(), "argB".to_string()];
    let cleaned = cleanup(&mut some_args);
    assert_eq!(cleaned, false);
    assert_eq!(
        some_args,
        vec!["tsp".to_string(), "argA".to_string(), "argB".to_string()]
    );
}

#[test]
fn test_some_cleanup() {
    let mut some_args: Vec<String> = vec![
        "tsp".to_string(),
        "argA".to_string(),
        "-rubbish".to_string(),
    ];
    let cleaned = cleanup(&mut some_args);
    assert_eq!(cleaned, true);
    assert_eq!(some_args, vec!["tsp".to_string(), "argA".to_string()]);
}
