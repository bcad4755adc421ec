//! Relay of text, pictures and codes to a thermal receipt printer: the
//! conversion of pictures into two-level bitmaps, the validation of barcode
//! payloads and the per-job print session as a state machine.

pub mod barcode;
pub mod error;
pub mod imaging;
pub mod job;
pub mod raster;
pub mod text;
