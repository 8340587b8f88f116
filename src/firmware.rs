//! Firmware metadata and the loading of a local firmware image from it.
use vstd::prelude::*;
use vstd::string::StringExecFns;
use vstd::utf8::encode_utf8;

use crate::planner::{FirmwareImage, ImageView};
use crate::protocol::copy_bytes;

verus! {

/// The metadata that describes a firmware file: its version, its size in
/// bytes and where it lies.
pub struct FirmwareFileMeta {
    pub version: String,
    pub size: usize,
    pub file: String,
}

/// Why a local firmware image cannot be loaded.
#[derive(Clone, Copy, Debug, PartialEq, Eq, Structural)]
pub enum FirmwareError {
    /// The firmware or its metadata could not be read.
    Io,
    /// The metadata is not well-formed.
    Parse,
    /// The firmware's length differs from the size the metadata gives.
    SizeMismatch { expected: usize, actual: usize },
    /// The firmware is too large for the protocol's 32-bit offsets.
    TooLarge,
}

impl FirmwareFileMeta {
    /// Metadata for `size` bytes of firmware `version` stored at `file`.
    pub fn new(version: &str, size: usize, file: &str) -> (r: FirmwareFileMeta)
        ensures
            r.version@ == version@,
            r.size == size,
            r.file@ == file@,
    {
        FirmwareFileMeta {
            version: String::from_str(version),
            size,
            file: String::from_str(file),
        }
    }

    /// The image that `data` makes under this metadata: its version is the
    /// metadata's, and its length must be the size the metadata gives.
    pub fn load(&self, data: Vec<u8>) -> (r: Result<FirmwareImage, FirmwareError>)
        ensures
            data@.len() != self.size ==> r == Err::<FirmwareImage, FirmwareError>(
                FirmwareError::SizeMismatch { expected: self.size, actual: data@.len() as usize },
            ),
            data@.len() == self.size && self.size > u32::MAX ==> r == Err::<
                FirmwareImage,
                FirmwareError,
            >(FirmwareError::TooLarge),
            data@.len() == self.size && self.size <= u32::MAX ==> (r matches Ok(img) && img@ == (
            ImageView { version: encode_utf8(self.version@), data: data@ })),
    {
        if data.len() != self.size {
            return Err(FirmwareError::SizeMismatch { expected: self.size, actual: data.len() });
        }
        let version = copy_bytes(self.version.as_str().as_bytes());
        match FirmwareImage::new(version, data) {
            Some(img) => Ok(img),
            None => Err(FirmwareError::TooLarge),
        }
    }
}

} // verus!
