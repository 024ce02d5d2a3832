use vstd::prelude::*;

use crate::error::ArcError;
use crate::error::ArcResult;
use crate::model::ArcFormat;

verus! {

/// The extension tag that signature sniffing assigns to a byte buffer, if
/// any. Classification inspects the bytes alone, so the result is a function
/// of the buffer's content.
pub uninterp spec fn sniffed_ext(bytes: Seq<u8>) -> Option<Seq<char>>;

/// Relies on `infer::get`: classifies a buffer by its magic signature and
/// reports the matched type's extension tag, or `None` when no known
/// signature matches. The result depends on the buffer's bytes alone.
#[verifier::external_body]
fn sniff(buf: &[u8]) -> (r: Option<String>)
    ensures
        r matches Some(ext) ==> sniffed_ext(buf@) == Some(ext@),
        r is None ==> sniffed_ext(buf@) is None,
{
    infer::get(buf).map(|t| t.extension().to_string())
}

/// The format tag that this library assigns to a byte buffer: the sniffed
/// extension tag, restricted to the three supported container formats.
pub open spec fn detect_spec(bytes: Seq<u8>) -> Option<ArcFormat> {
    match sniffed_ext(bytes) {
        Some(ext) => if ext == "zip"@ {
            Some(ArcFormat::Zip)
        } else if ext == "tar"@ {
            Some(ArcFormat::Tar)
        } else if ext == "7z"@ {
            Some(ArcFormat::Sevenz)
        } else {
            None
        },
        None => None,
    }
}

/// Classify a byte buffer by its magic signature into one of the supported
/// archive formats.
pub fn detect(buf: &[u8]) -> (r: ArcResult<ArcFormat>)
    ensures
        r matches Ok(f) ==> detect_spec(buf@) == Some(f),
        r matches Err(e) ==> detect_spec(buf@) is None && e is UnrecognizedFormat,
{
    match sniff(buf) {
        None => Err(ArcError::UnrecognizedFormat),
        Some(ext) => {
            if ext == "zip".to_string() {
                Ok(ArcFormat::Zip)
            } else if ext == "tar".to_string() {
                Ok(ArcFormat::Tar)
            } else if ext == "7z".to_string() {
                Ok(ArcFormat::Sevenz)
            } else {
                Err(ArcError::UnrecognizedFormat)
            }
        },
    }
}

} // verus!
