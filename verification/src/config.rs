use vstd::prelude::*;

verus! {

/// Where the extracted payload is to be written.
#[derive(Clone, Copy, Debug, PartialEq, Eq, Structural)]
pub enum OutputMode {
    /// An explicitly chosen output path.
    ExplicitFile,
    /// The input path with its extension replaced by `mp4`.
    DefaultFile,
    /// The standard output stream.
    Stdout,
}

#[derive(Clone, Copy, Debug, PartialEq, Eq, Structural)]
pub enum ConfigError {
    /// An output path and the stdout flag were both given.
    ConflictingOutputs,
}

/// Decides where the payload goes, before any file is touched. An explicit
/// output path together with the stdout flag is a configuration error; the
/// stdout flag alone selects standard output; an output path alone selects
/// that path; neither selects the default path derived from the input path.
pub fn select_output(has_output_path: bool, to_stdout: bool) -> (r: Result<
    OutputMode,
    ConfigError,
>)
    ensures
        r == (if has_output_path && to_stdout {
            Err::<OutputMode, ConfigError>(ConfigError::ConflictingOutputs)
        } else if to_stdout {
            Ok::<OutputMode, ConfigError>(OutputMode::Stdout)
        } else if has_output_path {
            Ok::<OutputMode, ConfigError>(OutputMode::ExplicitFile)
        } else {
            Ok::<OutputMode, ConfigError>(OutputMode::DefaultFile)
        }),
{
    if has_output_path && to_stdout {
        Err(ConfigError::ConflictingOutputs)
    } else if to_stdout {
        Ok(OutputMode::Stdout)
    } else if has_output_path {
        Ok(OutputMode::ExplicitFile)
    } else {
        Ok(OutputMode::DefaultFile)
    }
}

} // verus!
