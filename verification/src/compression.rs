//! Gzip wrapping of the payload, through the `flate2` crate.
//!
//! What the gzip coders yield on given bytes is named by [`gzip_of`],
//! [`gunzip_of`] and [`gunzip_prefix_of`] and never spelled out: each is a
//! function of its arguments alone, and the two directions are tied
//! together only by the round-trip promise of the format, which `flate2`
//! documents.

use crate::errors::SpzError;
use vstd::prelude::*;

verus! {

/// What gzip compression at the default level yields on `data`.
pub uninterp spec fn gzip_of(data: Seq<u8>) -> Seq<u8>;

/// What gzip decompression yields on `data`: the decompressed bytes, or
/// nothing when `data` is not a complete well-formed gzip stream.
pub uninterp spec fn gunzip_of(data: Seq<u8>) -> Option<Seq<u8>>;

/// What one bounded gzip read yields on `data` with room for `max_len`
/// bytes: a prefix of the decompressed stream, or nothing when the read
/// fails before producing anything, as on a malformed gzip header.
pub uninterp spec fn gunzip_prefix_of(data: Seq<u8>, max_len: nat) -> Option<Seq<u8>>;

/// Compresses `decompressed` with gzip into `compressed`, replacing its
/// contents.
///
/// Relies on `flate2::bufread::GzEncoder`: over an in-memory slice no
/// read can fail and compression itself never errs, and the output is a
/// complete gzip member that decompresses back to the input.
#[verifier::external_body]
pub fn compress_bytes(decompressed: &[u8], compressed: &mut Vec<u8>) -> (r: Result<(), SpzError>)
    ensures
        r is Ok,
        final(compressed)@ == gzip_of(decompressed@),
        gunzip_of(final(compressed)@) == Some(decompressed@),
{
    compressed.clear();
    compressed.reserve(decompressed.len() / 4);
    let mut encoder = flate2::bufread::GzEncoder::new(decompressed, flate2::Compression::default());
    match std::io::Read::read_to_end(&mut encoder, compressed) {
        Ok(_) => Ok(()),
        Err(_) => Err(SpzError::IoError),
    }
}

/// Decompresses the gzip stream `compressed` to its end, appending the
/// decompressed bytes to `decompressed`.
///
/// Relies on `flate2::bufread::GzDecoder`: reading it to the end yields
/// the decompressed stream of a complete valid gzip member, and errs
/// exactly on a malformed header, corrupt or truncated deflate data, or
/// a checksum or length mismatch.
#[verifier::external_body]
pub fn decompress_end(compressed: &[u8], decompressed: &mut Vec<u8>) -> (r: Result<(), SpzError>)
    ensures
        gunzip_of(compressed@) is Some ==> r is Ok && final(decompressed)@ == old(decompressed)@
            + gunzip_of(compressed@).unwrap(),
        gunzip_of(compressed@) is None ==> r matches Err(SpzError::IoError),
{
    let mut decoder = flate2::bufread::GzDecoder::new(compressed);
    match std::io::Read::read_to_end(&mut decoder, decompressed) {
        Ok(_) => Ok(()),
        Err(_) => Err(SpzError::IoError),
    }
}

/// Performs one bounded read of the gzip stream `compressed`, yielding
/// up to `max_len` decompressed bytes; a truncated stream still yields
/// its leading bytes, so a compressed prefix of a file can be inspected.
///
/// Relies on `flate2::bufread::GzDecoder`: a single `read` call decodes
/// a prefix of the decompressed stream into the buffer it is handed,
/// and errs on a malformed gzip header or corrupt leading deflate data.
#[verifier::external_body]
pub fn decompress_prefix(compressed: &[u8], max_len: usize) -> (r: Result<Vec<u8>, SpzError>)
    ensures
        gunzip_prefix_of(compressed@, max_len as nat) is Some ==> r is Ok && r.unwrap()@
            == gunzip_prefix_of(compressed@, max_len as nat).unwrap() && r.unwrap()@.len()
            <= max_len,
        gunzip_prefix_of(compressed@, max_len as nat) is None ==> r matches Err(SpzError::IoError),
{
    let mut decoder = flate2::bufread::GzDecoder::new(compressed);
    let mut buf = vec![0u8; max_len];
    match std::io::Read::read(&mut decoder, &mut buf) {
        Ok(n) => {
            buf.truncate(n);
            Ok(buf)
        },
        Err(_) => Err(SpzError::IoError),
    }
}

/// Compresses `data` with gzip into `out`, replacing its contents;
/// always succeeds.
pub fn compress_gzipped(data: &[u8], out: &mut Vec<u8>) -> (r: bool)
    ensures
        r == true,
        final(out)@ == gzip_of(data@),
        gunzip_of(final(out)@) == Some(data@),
{
    match compress_bytes(data, out) {
        Ok(()) => true,
        Err(_) => false,
    }
}

} // verus!
