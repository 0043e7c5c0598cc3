//! The failures that end the boot.

use vstd::prelude::*;

verus! {

/// A failure of the boot environment after which nothing is tried again.
#[derive(Clone, Copy, Debug, PartialEq, Eq)]
pub enum FatalError {
    /// A protocol could not be opened for exclusive use.
    ProtocolUnavailable,
    /// No file system was found on the device that the stub was loaded from.
    FileSystemNotFound,
    /// The root of the boot volume could not be opened.
    VolumeUnavailable,
    /// The open file did not report its length.
    LengthUnavailable,
    /// The pages for the image do not fit the address space.
    ImageTooLarge,
    /// The allocator did not hand out the pages.
    AllocationFailed,
    /// The file could not be read.
    ReadFailed,
    /// The environment did not accept the image.
    LoadImageFailed,
    /// The image did not start.
    StartImageFailed,
}

} // verus!
