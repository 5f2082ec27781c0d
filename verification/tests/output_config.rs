use motionphoto::config::{select_output, ConfigError, OutputMode};

#[test]
fn output_and_stdout_together_rejected() {
    assert!(matches!(select_output(true, true), Err(ConfigError::ConflictingOutputs)));
}

#[test]
fn stdout_alone_selects_stdout() {
    assert!(matches!(select_output(false, true), Ok(OutputMode::Stdout)));
}

#[test]
fn output_path_alone_selects_explicit_file() {
    assert!(matches!(select_output(true, false), Ok(OutputMode::ExplicitFile)));
}

#[test]
fn neither_selects_default_file() {
    assert!(matches!(select_output(false, false), Ok(OutputMode::DefaultFile)));
}
