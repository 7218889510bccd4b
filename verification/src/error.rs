//! Error taxonomy of the library.

use vstd::prelude::*;

verus! {

/// An error of the printer driver.
///
/// `Io` covers channel open/read/write failures (including a read timeout);
/// `Decode` a malformed status reply (wrong header bytes or an unrecognized
/// enumerated code); `InvalidImage` an image the raster pipeline rejects.
#[derive(Clone, Copy, Debug, PartialEq, Eq, Structural)]
pub enum BrotherQlError {
    Io,
    Decode,
    InvalidImage,
}

} // verus!
