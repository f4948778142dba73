//! The archive reader and the two compressors that the host relies on.
//!
//! Everything in this file is taken from the crates `zip`, `brotli` and
//! `flate2` without proof.

use crate::archive::{BROTLI_BUFFER, BROTLI_QUALITY, BROTLI_WINDOW};
use std::io::Cursor;
use std::io::Write;
use vstd::prelude::*;
use zip::ZipArchive;

verus! {

/// `std::io::Cursor`, the reader that an archive in memory is read through.
#[verifier::external_type_specification]
#[verifier::external_body]
#[verifier::reject_recursive_types(T)]
pub struct ExCursor<T>(std::io::Cursor<T>);

/// `zip::ZipArchive`, an archive that has been opened.
#[verifier::external_type_specification]
#[verifier::external_body]
#[verifier::reject_recursive_types(R)]
pub struct ExZipArchive<R>(zip::ZipArchive<R>);

/// The bytes that an open archive reads.
pub uninterp spec fn zip_source(archive: ZipArchive<Cursor<&[u8]>>) -> Seq<u8>;

/// Why `zip::ZipArchive::new` refuses these bytes, if it does.
pub uninterp spec fn zip_open_error(data: Seq<u8>) -> Option<Seq<char>>;

/// How many entries `zip::ZipArchive::len` counts in these bytes.
pub uninterp spec fn zip_count(data: Seq<u8>) -> nat;

/// What the entry at `index` says of itself: its name and whether it is a
/// regular file; or why it cannot be opened.
pub uninterp spec fn zip_header(data: Seq<u8>, index: int) -> Result<(Seq<char>, bool), Seq<char>>;

/// What the entry at `index` unpacks to, or why it cannot be unpacked.
pub uninterp spec fn zip_content(data: Seq<u8>, index: int) -> Result<Seq<u8>, Seq<char>>;

/// Why `brotli::CompressorWriter` fails on `content` with a buffer size, a
/// quality and a window size, if it does.
pub uninterp spec fn brotli_failure(
    content: Seq<u8>,
    buffer_size: int,
    quality: int,
    window: int,
) -> Option<Seq<char>>;

/// Whether `stream` is one that `brotli::CompressorWriter` may write for
/// `content` with a buffer size, a quality and a window size.
pub uninterp spec fn brotli_writes(
    content: Seq<u8>,
    buffer_size: int,
    quality: int,
    window: int,
    stream: Seq<u8>,
) -> bool;

/// What `brotli::Decompressor` reads from a stream to its end, if the stream is
/// a whole one.
pub uninterp spec fn brotli_decoded(stream: Seq<u8>) -> Option<Seq<u8>>;

/// The stream that `flate2::write::GzEncoder` writes for `content` at the
/// default level; or why it fails.
pub uninterp spec fn gzip_stream(content: Seq<u8>) -> Result<Seq<u8>, Seq<char>>;

/// What `flate2::read::GzDecoder` reads from a stream to its end, if the stream
/// is a whole one.
pub uninterp spec fn gzip_decoded(stream: Seq<u8>) -> Option<Seq<u8>>;

/// Opens an archive with `zip::ZipArchive::new`.
///
/// Claimed: whether the bytes open, and with what message they do not, depends
/// on the bytes alone, and the archive reads those bytes.
#[verifier::external_body]
pub(crate) fn open_archive(data: &[u8]) -> (r: Result<ZipArchive<Cursor<&[u8]>>, String>)
    ensures
        match r {
            Ok(archive) => zip_open_error(data@) is None && zip_source(archive) == data@,
            Err(message) => zip_open_error(data@) == Some(message@),
        },
{
    ZipArchive::new(Cursor::new(data)).map_err(|e| e.to_string())
}

/// Counts the entries with `zip::ZipArchive::len`.
///
/// Claimed: the count depends on the bytes of the archive alone.
#[verifier::external_body]
pub(crate) fn entry_count(archive: &ZipArchive<Cursor<&[u8]>>) -> (r: usize)
    ensures
        r == zip_count(zip_source(*archive)),
{
    archive.len()
}

/// Opens an entry with `zip::ZipArchive::by_index` and reads its `name` and
/// `is_file`.
///
/// Claimed: the outcome depends on the bytes of the archive and the index
/// alone, and the archive keeps reading the same bytes.
#[verifier::external_body]
pub(crate) fn entry_header(
    archive: &mut ZipArchive<Cursor<&[u8]>>,
    index: usize,
) -> (r: Result<(String, bool), String>)
    ensures
        zip_source(*final(archive)) == zip_source(*old(archive)),
        match r {
            Ok(header) => zip_header(zip_source(*old(archive)), index as int) == Ok::<
                (Seq<char>, bool),
                Seq<char>,
            >((header.0@, header.1)),
            Err(message) => zip_header(zip_source(*old(archive)), index as int) == Err::<
                (Seq<char>, bool),
                Seq<char>,
            >(message@),
        },
{
    let file = archive.by_index(index).map_err(|e| e.to_string())?;
    Ok((file.name().to_string(), file.is_file()))
}

/// Opens an entry with `zip::ZipArchive::by_index` and unpacks it with
/// `std::io::copy`.
///
/// Claimed: the outcome depends on the bytes of the archive and the index
/// alone, and the archive keeps reading the same bytes.
#[verifier::external_body]
pub(crate) fn entry_content(
    archive: &mut ZipArchive<Cursor<&[u8]>>,
    index: usize,
) -> (r: Result<Vec<u8>, String>)
    ensures
        zip_source(*final(archive)) == zip_source(*old(archive)),
        match r {
            Ok(content) => zip_content(zip_source(*old(archive)), index as int) == Ok::<
                Seq<u8>,
                Seq<char>,
            >(content@),
            Err(message) => zip_content(zip_source(*old(archive)), index as int) == Err::<
                Seq<u8>,
                Seq<char>,
            >(message@),
        },
{
    let mut content = Vec::new();
    let mut file = archive.by_index(index).map_err(|e| e.to_string())?;
    std::io::copy(&mut file, &mut content).map_err(|e| e.to_string())?;
    Ok(content)
}

/// Writes `content` through a `brotli::CompressorWriter`, flushes it and drops
/// it, which ends the stream.
///
/// Claimed: whether it fails, and with what message, depends on the four
/// arguments alone; else the stream is one that may be written for them, and
/// `brotli::Decompressor` reads `content` back from it. Which of the possible
/// streams it is stays open: the compressor weighs some of its choices by
/// floating-point logarithms, whose precision varies.
#[verifier::external_body]
pub(crate) fn brotli_compress(content: &[u8], buffer_size: usize, quality: u32, window: u32) -> (r:
    Result<Vec<u8>, String>)
    requires
        buffer_size == BROTLI_BUFFER,
        quality == BROTLI_QUALITY,
        window == BROTLI_WINDOW,
    ensures
        match r {
            Ok(stream) => {
                &&& brotli_failure(
                    content@,
                    buffer_size as int,
                    quality as int,
                    window as int,
                ) is None
                &&& brotli_writes(
                    content@,
                    buffer_size as int,
                    quality as int,
                    window as int,
                    stream@,
                )
                &&& brotli_decoded(stream@) == Some(content@)
            },
            Err(message) => brotli_failure(
                content@,
                buffer_size as int,
                quality as int,
                window as int,
            ) == Some(message@),
        },
{
    let mut compressed = Vec::new();
    let mut writer = brotli::CompressorWriter::new(&mut compressed, buffer_size, quality, window);
    let written = writer.write_all(content).and_then(|_| writer.flush());
    drop(writer);
    written.map_err(|e| e.to_string())?;
    Ok(compressed)
}

/// Writes `content` through a `flate2::write::GzEncoder` at the default level
/// and finishes it.
///
/// Claimed: the outcome depends on `content` alone, and
/// `flate2::read::GzDecoder` reads `content` back from the stream.
#[verifier::external_body]
pub(crate) fn gzip_compress(content: &[u8]) -> (r: Result<Vec<u8>, String>)
    ensures
        match r {
            Ok(stream) => {
                &&& gzip_stream(content@) == Ok::<Seq<u8>, Seq<char>>(stream@)
                &&& gzip_decoded(stream@) == Some(content@)
            },
            Err(message) => gzip_stream(content@) == Err::<Seq<u8>, Seq<char>>(message@),
        },
{
    let mut compressed = Vec::new();
    let mut writer =
        flate2::write::GzEncoder::new(&mut compressed, flate2::Compression::default());
    writer.write_all(content).map_err(|e| e.to_string())?;
    writer.finish().map_err(|e| e.to_string())?;
    Ok(compressed)
}

} // verus!
