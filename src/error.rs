use vstd::prelude::*;

verus! {

/// Where in a download a transfer failed.
#[derive(Clone, Copy, Debug, PartialEq, Eq, Structural)]
pub enum TransferStage {
    /// Sending the request or receiving the response head.
    Request,
    /// Creating the destination file.
    CreateFile,
    /// Reading a chunk of the response body.
    Read,
    /// Writing a chunk to the destination file.
    Write,
}

/// The typed errors of an install run.
#[derive(Clone, Debug)]
pub enum InstallError {
    /// The operation needs a platform facility that this platform lacks.
    EnvironmentUnsupported,
    /// Something the step needs is missing; the text names it.
    NotFound(String),
    /// The network or the disk failed during a download.
    TransferFailure { stage: TransferStage, detail: String },
    /// A child process could not be run, or it reported failure.
    ProcessFailure { code: Option<i32>, detail: String },
}

} // verus!
