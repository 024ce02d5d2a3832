use vstd::prelude::*;

use crate::detect::detect_spec;
use crate::error::ArcError;
use crate::model::ArcFormat;
use crate::model::EntryModel;

verus! {

/// The error kinds a format's codec reports: its own structural kind where
/// it has one, and the I/O kind for stream failures.
pub open spec fn codec_err_wf(f: ArcFormat, e: ArcError) -> bool {
    match f {
        ArcFormat::Zip => e is ZipError || e is IoError,
        ArcFormat::Tar => e is IoError,
        ArcFormat::Sevenz => e is SevenzError,
    }
}

/// The full decode of a byte buffer in the given format: `None` when the
/// container or any record in it is malformed, otherwise every entry in the
/// order that format's decoder visits them.
pub open spec fn parse_spec(f: ArcFormat, bytes: Seq<u8>) -> Option<Seq<EntryModel>> {
    match f {
        ArcFormat::Zip => crate::zip_codec::zip_entries_spec(bytes),
        ArcFormat::Tar => crate::tar_codec::tar_parse(bytes),
        ArcFormat::Sevenz => crate::sevenz_codec::sz_parse(bytes),
    }
}

/// What a reader yields from a byte buffer: the format the signature
/// sniffing assigns to it, paired with that format's full decode.
pub open spec fn reader_of(bytes: Seq<u8>) -> Option<(ArcFormat, Seq<EntryModel>)> {
    match detect_spec(bytes) {
        Some(f) => match parse_spec(f, bytes) {
            Some(es) => Some((f, es)),
            None => None,
        },
        None => None,
    }
}

} // verus!
