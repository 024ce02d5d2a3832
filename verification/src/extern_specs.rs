use vstd::prelude::*;

verus! {

/// `std::io::Cursor` carries an in-memory buffer through the codec crates;
/// this crate never looks inside one.
#[verifier::external_type_specification]
#[verifier::external_body]
#[verifier::reject_recursive_types(T)]
pub struct ExCursor<T>(std::io::Cursor<T>);

/// `std::io::Error`, held opaquely inside [`crate::error::ArcError::IoError`].
#[verifier::external_type_specification]
#[verifier::external_body]
pub struct ExIoError(std::io::Error);

/// `zip::result::ZipError`, held opaquely inside [`crate::error::ArcError::ZipError`].
#[verifier::external_type_specification]
#[verifier::external_body]
pub struct ExZipError(zip::result::ZipError);

/// `sevenz_rust::Error`, held opaquely inside [`crate::error::ArcError::SevenzError`].
#[verifier::external_type_specification]
#[verifier::external_body]
pub struct ExSevenzError(sevenz_rust::Error);

/// `zip::ZipArchive`: the zip codec's random-access view of a parsed
/// container. Its contents are named by `crate::zip_codec::zip_contents`.
#[verifier::external_type_specification]
#[verifier::external_body]
#[verifier::reject_recursive_types(R)]
pub struct ExZipArchive<R>(zip::ZipArchive<R>);

} // verus!
