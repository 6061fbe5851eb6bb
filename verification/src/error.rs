//! The ways in which a conversion fails.

use vstd::prelude::*;

verus! {

/// Why a conversion did not produce the requested file. Every failure ends
/// the conversion at once; nothing is retried and nothing is undone.
#[derive(Debug, Clone, Copy, PartialEq, Eq)]
pub enum ConversionError {
    /// The input path does not exist.
    InputNotFound,
    /// The input path exists but is not a regular file.
    InputNotAFile,
    /// The requested output path is an existing directory.
    OutputIsDirectory,
    /// The output path has no parent directory to convert into.
    InvalidOutputPath,
    /// Creating the output directory or moving the generated file failed.
    FilesystemError,
    /// The converter could not be started, or it ended with anything but
    /// exit code zero. `exit_code` is what it reported, if it reported.
    ExternalToolFailed { exit_code: Option<i32> },
    /// The converter reported success but the file it was expected to
    /// write is not there.
    OutputNotProduced,
}

} // verus!
