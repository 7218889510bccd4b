//! Driver library for Brother QL-series label printers.
//!
//! The library covers the raster-mode protocol: encoding protocol commands
//! into their exact byte sequences, decoding the printer's fixed 32-byte
//! status replies, mapping media geometry to a printable pixel width, and
//! converting a grayscale bitmap into the 90-byte raster lines the printer
//! consumes. Device I/O and image file handling live outside the library.

use vstd::prelude::*;

pub mod error;
pub mod status;
pub mod command;
pub mod session;
pub mod raster;

verus! {

/// Configuration for a print job.
#[derive(Clone, Copy, Debug, PartialEq, Eq, Structural)]
pub struct Settings {
    /// Double the vertical resolution (600 dpi mode).
    pub dpi_600: bool,
    /// Cut after each label.
    pub auto_cut: bool,
    /// Convert to monochrome by error-diffusion dithering instead of a
    /// flat threshold.
    pub dithering: bool,
}

} // verus!
