use bel7_cli::{ArgParseError, ExitCode, ExitCodeExt};

#[test]
fn exit_codes_convert_to_their_raw_values() {
    assert_eq!(ExitCode::Ok.to_i32(), 0);
    assert_eq!(ExitCode::Usage.to_i32(), 64);
    assert_eq!(ExitCode::NoInput.to_i32(), 66);
    assert_eq!(ExitCode::NoPerm.to_i32(), 77);
    assert_eq!(ExitCode::Config.to_i32(), 78);
}

#[test]
fn arg_parse_error_message_names_the_argument() {
    let err = ArgParseError::new("count", "invalid digit found in string");
    assert_eq!(err.name, "count");
    assert_eq!(
        err.to_string(),
        "Invalid value for 'count': invalid digit found in string"
    );
}
