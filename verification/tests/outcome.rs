use tsp::outcome::Outcome;

#[test]
fn test_outcome_implementation() {
    let r = Outcome::new("foo".to_string()).set("bar".to_string());
    assert_eq!(r.to_line(), "foo                  :: bar");
}

#[test]
fn test_outcome_long_input() {
    // an input already wider than the padding column gets no padding
    let r = Outcome::new("123456789012345678901".to_string()).set("x".to_string());
    assert_eq!(r.to_line(), "123456789012345678901 :: x");
}

#[test]
fn test_outcome_accessors() {
    let mut r = Outcome::new("in".to_string());
    assert_eq!(r.input_value(), "in");
    assert_eq!(r.rendered_value(), "");
    let copy = r.set("out".to_string());
    assert_eq!(r.rendered_value(), "out");
    assert_eq!(copy, r);
}
