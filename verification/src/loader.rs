//! Kernel image loading: validation of the entry found at the fixed kernel
//! path and of the bytes the firmware read from it.
//!
//! Resolving the loader's device handle, binding the filesystem capability,
//! opening the volume root and the fixed path, and the read itself are
//! outside work; every decision about what those calls reported is verified
//! here. The image format is deliberately not validated: the fixed-address,
//! raw-copy placement assumes a flat binary with its entry point at offset
//! zero.

use vstd::prelude::*;

use crate::errors::{BootError, IoError, ValidationError};

verus! {

/// Largest accepted kernel image: 32 MiB.
pub const MAX_KERNEL_SIZE: u64 = 32 * 1024 * 1024;

/// An owned kernel image. Invariant: `0 < length <= MAX_KERNEL_SIZE`.
#[derive(Debug, PartialEq, Eq)]
pub struct KernelImage {
    pub bytes: Vec<u8>,
}

impl KernelImage {
    /// Well-formedness: the image is non-empty and within the size cap.
    pub open spec fn wf(self) -> bool {
        0 < self.bytes@.len() <= MAX_KERNEL_SIZE
    }

    /// Image length in bytes.
    pub fn len(&self) -> (r: usize)
        ensures
            r == self.bytes@.len(),
    {
        self.bytes.len()
    }
}

/// What opening the fixed kernel path reported.
#[derive(Clone, Copy, Debug, PartialEq, Eq, Structural)]
pub enum FileOpenOutcome {
    /// No entry exists at the path.
    Missing,
    /// The entry is not a regular file.
    NotRegular,
    /// A regular file was opened; its metadata declares this size.
    Opened { size: u64 },
}

/// The error a kernel-file open outcome is rejected with, if any.
pub open spec fn spec_validate_kernel_file(outcome: FileOpenOutcome) -> Result<u64, BootError> {
    match outcome {
        FileOpenOutcome::Missing => Err(BootError::Io(IoError::FileNotFound)),
        FileOpenOutcome::NotRegular => Err(BootError::Io(IoError::NotAFile)),
        FileOpenOutcome::Opened { size } => if size == 0 {
            Err(BootError::Validation(ValidationError::EmptyImage))
        } else if size > MAX_KERNEL_SIZE {
            Err(BootError::Validation(ValidationError::ImageTooLarge))
        } else {
            Ok(size)
        },
    }
}

/// Validates what the open call found at the fixed kernel path and how large
/// the file's metadata declares it to be. On success returns the byte count
/// the read call must deliver.
pub fn validate_kernel_file(outcome: &FileOpenOutcome) -> (r: Result<u64, BootError>)
    ensures
        r == spec_validate_kernel_file(*outcome),
        r matches Ok(size) ==> 0 < size <= MAX_KERNEL_SIZE,
{
    match outcome {
        FileOpenOutcome::Missing => Err(BootError::Io(IoError::FileNotFound)),
        FileOpenOutcome::NotRegular => Err(BootError::Io(IoError::NotAFile)),
        FileOpenOutcome::Opened { size } => {
            if *size == 0 {
                Err(BootError::Validation(ValidationError::EmptyImage))
            } else if *size > MAX_KERNEL_SIZE {
                Err(BootError::Validation(ValidationError::ImageTooLarge))
            } else {
                Ok(*size)
            }
        },
    }
}

/// Takes the bytes the firmware read and checks the full-read guarantee:
/// the byte count must equal the declared size. A short read is fatal and
/// not retried — the boot volume is a single synchronous block device, so a
/// short read indicates unrecoverable corruption, not transient
/// unavailability. On success the returned image owns exactly the bytes
/// that were read.
pub fn load_kernel(declared_size: u64, data: Vec<u8>) -> (r: Result<KernelImage, BootError>)
    requires
        0 < declared_size <= MAX_KERNEL_SIZE,
    ensures
        data@.len() == declared_size ==> (r matches Ok(image) && image.bytes == data
            && image.wf()),
        data@.len() != declared_size ==> r == Result::<KernelImage, BootError>::Err(
            BootError::Io(IoError::ShortRead),
        ),
{
    if data.len() as u64 == declared_size {
        Ok(KernelImage { bytes: data })
    } else {
        Err(BootError::Io(IoError::ShortRead))
    }
}

} // verus!
