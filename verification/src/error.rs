use vstd::prelude::*;

verus! {

/// Main error type for this library.
///
/// Codec-level failures are surfaced verbatim, wrapped in the variant of the
/// codec that produced them; `UnrecognizedFormat` is returned when a byte
/// buffer's signature matches none of the supported formats.
#[derive(Debug)]
pub enum ArcError {
    IoError(std::io::Error),
    ZipError(zip::result::ZipError),
    SevenzError(sevenz_rust::Error),
    UnrecognizedFormat,
}

pub type ArcResult<T> = Result<T, ArcError>;

} // verus!
