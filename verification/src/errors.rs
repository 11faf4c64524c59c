use vstd::prelude::*;
use vstd::string::StringExecFns;

verus! {

/// Every failure that can end a pipeline run. Each variant is terminal: the
/// pipeline never retries and never produces a partial artifact.
#[derive(Debug, PartialEq, Eq)]
pub enum PipelineError {
    /// The distfile has no explicit name and none can be derived from its URI.
    NameResolution,
    /// The expected digest string is not valid hex.
    InvalidDigestEncoding,
    /// The computed digest differs from the expected one; both are carried
    /// hex-encoded for diagnostics.
    ChecksumMismatch { expected: String, actual: String },
    /// The network retrieval of a distfile failed.
    FetchFailure,
    /// A filesystem operation (read, write, copy, create, remove) failed.
    FilesystemFailure,
    /// The build script exited with a non-zero status; `code` is the exit
    /// code when the process exited normally.
    BuildFailed { code: Option<i32> },
    /// Archiving the output tree failed.
    PackagingFailure,
}

/// The mathematical value of a `PipelineError`: the same variants over
/// sequences of characters.
pub ghost enum ErrorModel {
    NameResolution,
    InvalidDigestEncoding,
    ChecksumMismatch { expected: Seq<char>, actual: Seq<char> },
    FetchFailure,
    FilesystemFailure,
    BuildFailed { code: Option<i32> },
    PackagingFailure,
}

impl PipelineError {
    /// A human-readable diagnostic for the operator. The checksum case
    /// carries both digests so a mismatch can be acted on.
    pub fn message(&self) -> (r: String)
        ensures
            self is NameResolution ==> r@ == "don't know what name to use"@,
            self is InvalidDigestEncoding ==> r@ == "couldn't decode blake2b as hex"@,
            self matches PipelineError::ChecksumMismatch { expected, actual } ==> r@
                == "!!! failed blake2b checksum (expected "@ + expected@ + ", got "@ + actual@
                + ") !!!"@,
            self is FetchFailure ==> r@ == "couldn't get distfile"@,
            self is FilesystemFailure ==> r@ == "filesystem operation failed"@,
            self matches PipelineError::BuildFailed { .. } ==> r@ == "build failed"@,
            self is PackagingFailure ==> r@ == "failed to run tar"@,
    {
        match self {
            PipelineError::NameResolution => "don't know what name to use".to_owned(),
            PipelineError::InvalidDigestEncoding => "couldn't decode blake2b as hex".to_owned(),
            PipelineError::ChecksumMismatch { expected, actual } => {
                let mut m = "!!! failed blake2b checksum (expected ".to_owned();
                m.append(expected.as_str());
                m.append(", got ");
                m.append(actual.as_str());
                m.append(") !!!");
                m
            },
            PipelineError::FetchFailure => "couldn't get distfile".to_owned(),
            PipelineError::FilesystemFailure => "filesystem operation failed".to_owned(),
            PipelineError::BuildFailed { .. } => "build failed".to_owned(),
            PipelineError::PackagingFailure => "failed to run tar".to_owned(),
        }
    }
}

impl View for PipelineError {
    type V = ErrorModel;

    open spec fn view(&self) -> ErrorModel {
        match self {
            PipelineError::NameResolution => ErrorModel::NameResolution,
            PipelineError::InvalidDigestEncoding => ErrorModel::InvalidDigestEncoding,
            PipelineError::ChecksumMismatch { expected, actual } => ErrorModel::ChecksumMismatch {
                expected: expected@,
                actual: actual@,
            },
            PipelineError::FetchFailure => ErrorModel::FetchFailure,
            PipelineError::FilesystemFailure => ErrorModel::FilesystemFailure,
            PipelineError::BuildFailed { code } => ErrorModel::BuildFailed { code: *code },
            PipelineError::PackagingFailure => ErrorModel::PackagingFailure,
        }
    }
}

} // verus!
