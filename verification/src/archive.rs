//! Interpretation of the response payload as a zip archive, and its
//! extraction into the output directory.

use vstd::prelude::*;

use crate::errors::{prefixed_error, ErrorKind, RetrieverError};

verus! {

#[verifier::external_type_specification]
#[verifier::external_body]
#[verifier::reject_recursive_types(R)]
pub struct ExZipArchive<R>(zip::ZipArchive<R>);

#[verifier::external_type_specification]
#[verifier::external_body]
#[verifier::reject_recursive_types(T)]
pub struct ExCursor<T>(std::io::Cursor<T>);

#[verifier::external_type_specification]
#[verifier::external_body]
pub struct ExPathBuf(std::path::PathBuf);

/// Whether the bytes form a zip archive whose central directory can be read:
/// a property of the bytes alone.
pub uninterp spec fn wellformed_zip(bytes: Seq<u8>) -> bool;

/// Relies on zip::ZipArchive::new over an in-memory reader: it collects the
/// archive's central directory and succeeds exactly when the bytes hold a
/// readable one, deterministically in the bytes. On failure the error's
/// rendering is handed back as the detail.
#[verifier::external_body]
fn open_zip_archive(body: &Vec<u8>) -> (r: Result<
    zip::ZipArchive<std::io::Cursor<Vec<u8>>>,
    String,
>)
    ensures
        r is Ok <==> wellformed_zip(body@),
{
    match zip::ZipArchive::new(std::io::Cursor::new(body.clone())) {
        Ok(archive) => Ok(archive),
        Err(e) => Err(format!("{}", e)),
    }
}

/// Relies on zip::ZipArchive::extract: it writes every entry of the archive
/// under the given directory, creating it and any nested directories as
/// needed and overwriting existing files. Success depends on the machine's
/// disk, so nothing is promised of the outcome; on failure the error's
/// rendering is handed back as the detail.
#[verifier::external_body]
fn extract_zip_archive(
    archive: &mut zip::ZipArchive<std::io::Cursor<Vec<u8>>>,
    directory: &std::path::PathBuf,
) -> (r: Result<(), String>) {
    match archive.extract(directory) {
        Ok(()) => Ok(()),
        Err(e) => Err(format!("{}", e)),
    }
}

/// Checks that the payload is a readable zip archive, without touching disk.
pub fn check_archive(body: &Vec<u8>) -> (r: Result<(), RetrieverError>)
    ensures
        r is Ok <==> wellformed_zip(body@),
        r matches Err(e) ==> e.kind == ErrorKind::DecompressFailure,
{
    match open_zip_archive(body) {
        Ok(_) => Ok(()),
        Err(detail) => Err(
            prefixed_error(
                ErrorKind::DecompressFailure,
                "failed to read 'ZipArchive' from bytes: ",
                detail.as_str(),
            ),
        ),
    }
}

/// Interprets the payload as a zip archive and extracts every entry under
/// the output directory. A payload that is no well-formed archive is always
/// rejected; extraction of a well-formed one may still fail on disk, and
/// files written before such a failure are not rolled back.
pub fn extract_archive(body: &Vec<u8>, output_path: &std::path::PathBuf) -> (r: Result<
    (),
    RetrieverError,
>)
    ensures
        r is Ok ==> wellformed_zip(body@),
        !wellformed_zip(body@) ==> r is Err,
        r matches Err(e) ==> e.kind == ErrorKind::DecompressFailure,
{
    match open_zip_archive(body) {
        Err(detail) => Err(
            prefixed_error(
                ErrorKind::DecompressFailure,
                "failed to read 'ZipArchive' from bytes: ",
                detail.as_str(),
            ),
        ),
        Ok(mut archive) => match extract_zip_archive(&mut archive, output_path) {
            Ok(()) => Ok(()),
            Err(detail) => Err(
                prefixed_error(
                    ErrorKind::DecompressFailure,
                    "failed to decompress bytes: ",
                    detail.as_str(),
                ),
            ),
        },
    }
}

} // verus!
