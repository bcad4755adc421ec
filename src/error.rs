//! The errors of a print job.

use vstd::prelude::*;
use crate::barcode::BarcodeKind;

verus! {

/// Why a print job failed.
#[derive(Clone, Debug, PartialEq, Eq)]
pub enum PrintError {
    /// The source picture could not be read or decoded.
    Decode,
    /// The bitmap could not be serialised.
    Encode,
    /// The raster is narrower than the two columns, or shorter than the one
    /// row, that error diffusion needs.
    TooSmall,
    /// The device could not be opened, read, written or flushed.
    Io(String),
    /// The link to the device is held by another caller.
    Busy,
    /// The symbology refused the barcode payload.
    InvalidPayload(BarcodeKind, String),
}

} // verus!
