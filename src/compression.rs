//! The compressors of the chunk stream: zlib through flate2, XZ through
//! lzma-rs. Each result is named by what the outside crate makes of its input.
use vstd::prelude::*;

verus! {

#[verifier::external_type_specification]
#[verifier::external_body]
pub struct ExIoError(std::io::Error);

#[verifier::external_type_specification]
#[verifier::external_body]
pub struct ExLzmaError(lzma_rs::error::Error);

/// The bytes that flate2 inflates the zlib stream `b` to, or `None` where it
/// reports an error.
pub uninterp spec fn zlib_inflated(b: Seq<u8>) -> Option<Seq<u8>>;

/// The zlib stream that flate2 makes of `b` at the default level.
pub uninterp spec fn zlib_deflated(b: Seq<u8>) -> Seq<u8>;

/// The bytes that lzma-rs unpacks the XZ container `b` to, or `None` where
/// it reports an error.
pub uninterp spec fn xz_inflated(b: Seq<u8>) -> Option<Seq<u8>>;

/// Whether four `0xFF` bytes follow each other somewhere in `b`.
pub open spec fn has_ff_run(b: Seq<u8>) -> bool {
    exists|i: int|
        0 <= i && i + 4 <= b.len() && #[trigger] b[i] == 0xFF && b[i + 1] == 0xFF && b[i + 2]
            == 0xFF && b[i + 3] == 0xFF
}

/// Whether four `0xFF` bytes follow each other somewhere in `b`.
pub fn contains_ff_run(b: &[u8]) -> (r: bool)
    ensures
        r == has_ff_run(b@),
{
    let n = b.len();
    if n < 4 {
        return false;
    }
    let mut i: usize = 0;
    while i <= n - 4
        invariant
            n == b@.len(),
            n >= 4,
            i <= n - 3,
            forall|k: int|
                0 <= k < i ==> !(#[trigger] b@[k] == 0xFF && b@[k + 1] == 0xFF && b@[k + 2] == 0xFF
                    && b@[k + 3] == 0xFF),
        decreases n - i,
    {
        if b[i] == 0xFF && b[i + 1] == 0xFF && b[i + 2] == 0xFF && b[i + 3] == 0xFF {
            return true;
        }
        i = i + 1;
    }
    false
}

/// The XZ container that lzma-rs packs `b` into.
pub uninterp spec fn xz_deflated(b: Seq<u8>) -> Seq<u8>;

/// Relies on flate2's `read::ZlibDecoder`, read to its end: whether it
/// succeeds and what comes out depend on the input bytes alone.
#[verifier::external_body]
pub(crate) fn zlib_decompress(data: &[u8]) -> (r: Result<Vec<u8>, std::io::Error>)
    ensures
        r is Ok <==> zlib_inflated(data@) is Some,
        r is Ok ==> r->Ok_0@ == zlib_inflated(data@)->0,
{
    let mut decoder = flate2::read::ZlibDecoder::new(data);
    let mut out = Vec::new();
    match std::io::Read::read_to_end(&mut decoder, &mut out) {
        Ok(_) => Ok(out),
        Err(e) => Err(e),
    }
}

/// Relies on flate2's `write::ZlibEncoder` at `Compression::default()`: the
/// stream it finishes with depends on the input bytes alone, and writing into
/// a `Vec`, which never fails, it always succeeds.
#[verifier::external_body]
pub(crate) fn zlib_compress(data: &[u8]) -> (r: Result<Vec<u8>, std::io::Error>)
    ensures
        r is Ok,
        r is Ok ==> r->Ok_0@ == zlib_deflated(data@),
{
    let mut encoder = flate2::write::ZlibEncoder::new(Vec::new(), flate2::Compression::default());
    match std::io::Write::write_all(&mut encoder, data) {
        Ok(()) => encoder.finish(),
        Err(e) => Err(e),
    }
}

/// Relies on `lzma_rs::xz_decompress`: whether it succeeds and what it
/// writes depend on the input bytes alone. It reads the footer's backward
/// size as four input bytes and adds one to it, which overflows, and panics
/// where overflow is checked, when those bytes are all `0xFF`; inputs with
/// four `0xFF` bytes in a row are therefore left out.
#[verifier::external_body]
pub(crate) fn xz_decompress(data: &[u8]) -> (r: Result<Vec<u8>, lzma_rs::error::Error>)
    requires
        !has_ff_run(data@),
    ensures
        r is Ok <==> xz_inflated(data@) is Some,
        r is Ok ==> r->Ok_0@ == xz_inflated(data@)->0,
{
    let mut input = data;
    let mut out = Vec::new();
    match lzma_rs::xz_decompress(&mut input, &mut out) {
        Ok(()) => Ok(out),
        Err(e) => Err(e),
    }
}

/// Relies on `lzma_rs::xz_compress`: what it writes depends on the input
/// bytes alone, and reading from a slice into a `Vec`, neither of which
/// fails, it always succeeds.
#[verifier::external_body]
pub(crate) fn xz_compress(data: &[u8]) -> (r: Result<Vec<u8>, std::io::Error>)
    ensures
        r is Ok,
        r is Ok ==> r->Ok_0@ == xz_deflated(data@),
{
    let mut input = data;
    let mut out = Vec::new();
    match lzma_rs::xz_compress(&mut input, &mut out) {
        Ok(()) => Ok(out),
        Err(e) => Err(e),
    }
}

} // verus!
