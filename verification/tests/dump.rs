use tsp::dump::{get_fn, DumpMode};

#[test]
fn test_get_fn_text() {
    let dump_mode = get_fn(false);
    assert!(dump_mode == DumpMode::Text);
}

#[test]
fn test_get_fn_json() {
    let dump_mode = get_fn(true);
    assert!(dump_mode == DumpMode::Json);
}
