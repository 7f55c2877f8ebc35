use cli_helpers::{parse_num, value_or_report, INVALID_INPUT};

#[test]
fn test_parse_num() {
    assert_eq!(parse_num::<u64>("12"), Ok(12));
    assert_eq!(parse_num::<i8>("-2"), Ok(-2));
}

#[test]
#[should_panic(expected = "Invalid input")]
fn test_parse_num_handles_invalid_input() {
    if parse_num::<u64>("hello world").is_err() {
        panic!("{}", INVALID_INPUT);
    }
}

#[test]
fn invalid_input_is_reported_with_the_input() {
    let invalid = parse_num::<u64>("hello world").unwrap_err();
    assert_eq!(invalid.message, "Invalid input detected: hello world");
    assert!(invalid.highlighted.contains("Invalid input detected: hello world"));
    assert_eq!(invalid.report(), format!("{}\n", invalid.highlighted));
}

#[test]
fn empty_input_is_invalid() {
    let invalid = parse_num::<u64>("").unwrap_err();
    assert_eq!(invalid.message, "Invalid input detected: ");
}

#[test]
fn the_type_decides_what_parses() {
    assert_eq!(parse_num::<i8>("-128"), Ok(-128));
    assert!(parse_num::<i8>("128").is_err());
    assert!(parse_num::<u64>("-2").is_err());
    assert!(parse_num::<u64>(" 12").is_err());
    assert_eq!(parse_num::<u64>("+12"), Ok(12));
    assert_eq!(parse_num::<u64>("18446744073709551615"), Ok(u64::MAX));
    assert_eq!(parse_num::<bool>("true"), Ok(true));
    assert_eq!(parse_num::<char>("x"), Ok('x'));
    assert_eq!(parse_num::<String>("hello world"), Ok(String::from("hello world")));
}

#[test]
fn a_parsed_value_is_handed_on() {
    assert_eq!(value_or_report("12", Some(12u64)), Ok(12));
    assert_eq!(value_or_report("anything", Some(-2i8)), Ok(-2));
}

#[test]
fn a_missing_value_gives_the_diagnostic() {
    let invalid = value_or_report::<u64>("12x", None).unwrap_err();
    assert_eq!(invalid.message, "Invalid input detected: 12x");
}

#[test]
fn the_marker_is_invalid_input() {
    assert_eq!(INVALID_INPUT, "Invalid input");
    let invalid = parse_num::<u64>("?").unwrap_err();
    assert!(invalid.message.starts_with(INVALID_INPUT));
}
