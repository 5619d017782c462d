//! Failure taxonomy of the boot pipeline and the status codes surfaced to
//! the invoking environment.

use vstd::prelude::*;

verus! {

/// Hardware or input shape rejected. Always fatal, never retried.
#[derive(Clone, Copy, Debug, PartialEq, Eq, Structural)]
pub enum ValidationError {
    /// A mandatory CPU feature is absent.
    UnsupportedCpu,
    /// The kernel file has size zero.
    EmptyImage,
    /// The kernel file exceeds the maximum image size.
    ImageTooLarge,
    /// The computed page count is zero (guards an internal invariant;
    /// a zero-length image is already excluded upstream).
    InvalidPageCount,
}

/// The firmware cannot satisfy a resource request. Fatal.
#[derive(Clone, Copy, Debug, PartialEq, Eq, Structural)]
pub enum ResourceError {
    /// The fixed load address is unavailable.
    AllocationFailed,
    /// The memory-map buffer stayed undersized after the retry budget
    /// was exhausted.
    MapBufferUndersized,
}

/// Filesystem or read failure. Fatal.
#[derive(Clone, Copy, Debug, PartialEq, Eq, Structural)]
pub enum IoError {
    /// No entry exists at the fixed kernel path.
    FileNotFound,
    /// The entry at the fixed kernel path is not a regular file.
    NotAFile,
    /// The firmware returned fewer bytes than the declared file size.
    ShortRead,
}

/// Firmware-state race. Recoverable once per occurrence by re-capturing the
/// memory map; fatal only when the retry budget is exhausted.
#[derive(Clone, Copy, Debug, PartialEq, Eq, Structural)]
pub enum ProtocolError {
    /// The map key presented at boot-services exit no longer matches the
    /// firmware's current memory map.
    StaleMapKey,
}

/// Any failure a pipeline stage can abort with.
#[derive(Clone, Copy, Debug, PartialEq, Eq, Structural)]
pub enum BootError {
    Validation(ValidationError),
    Resource(ResourceError),
    Io(IoError),
    Protocol(ProtocolError),
    /// A documented impossibility: control returned from the kernel entry
    /// point after a completed transfer.
    InternalContract,
}

/// The closed set of status codes surfaced to the invoking environment.
#[derive(Clone, Copy, Debug, PartialEq, Eq, Structural)]
pub enum StatusCode {
    /// Observable only when the handoff step is simulated or disabled;
    /// a real completed handoff never returns.
    Success,
    UnsupportedHardware,
    InvalidParameter,
    BufferTooSmall,
    LoadError,
}

/// The status code that corresponds to each failure.
pub open spec fn spec_status_of(error: BootError) -> StatusCode {
    match error {
        BootError::Validation(ValidationError::UnsupportedCpu) => StatusCode::UnsupportedHardware,
        BootError::Validation(ValidationError::EmptyImage) => StatusCode::InvalidParameter,
        BootError::Validation(ValidationError::ImageTooLarge) => StatusCode::BufferTooSmall,
        BootError::Validation(ValidationError::InvalidPageCount) => StatusCode::InvalidParameter,
        BootError::Resource(ResourceError::AllocationFailed) => StatusCode::LoadError,
        BootError::Resource(ResourceError::MapBufferUndersized) => StatusCode::BufferTooSmall,
        BootError::Io(IoError::FileNotFound) => StatusCode::LoadError,
        BootError::Io(IoError::NotAFile) => StatusCode::InvalidParameter,
        BootError::Io(IoError::ShortRead) => StatusCode::LoadError,
        BootError::Protocol(ProtocolError::StaleMapKey) => StatusCode::LoadError,
        BootError::InternalContract => StatusCode::LoadError,
    }
}

/// Maps a failure to the status code returned to the invoking environment.
pub fn status_of(error: &BootError) -> (r: StatusCode)
    ensures
        r == spec_status_of(*error),
{
    match error {
        BootError::Validation(ValidationError::UnsupportedCpu) => StatusCode::UnsupportedHardware,
        BootError::Validation(ValidationError::EmptyImage) => StatusCode::InvalidParameter,
        BootError::Validation(ValidationError::ImageTooLarge) => StatusCode::BufferTooSmall,
        BootError::Validation(ValidationError::InvalidPageCount) => StatusCode::InvalidParameter,
        BootError::Resource(ResourceError::AllocationFailed) => StatusCode::LoadError,
        BootError::Resource(ResourceError::MapBufferUndersized) => StatusCode::BufferTooSmall,
        BootError::Io(IoError::FileNotFound) => StatusCode::LoadError,
        BootError::Io(IoError::NotAFile) => StatusCode::InvalidParameter,
        BootError::Io(IoError::ShortRead) => StatusCode::LoadError,
        BootError::Protocol(ProtocolError::StaleMapKey) => StatusCode::LoadError,
        BootError::InternalContract => StatusCode::LoadError,
    }
}

} // verus!
