//! The codec capability: Snappy raw-format compression and decompression,
//! delegated to the `snap` crate and stated over byte sequences.

use vstd::prelude::*;

verus! {

/// The largest number of bytes the Snappy raw format can describe (`2^32 - 1`).
pub const MAX_INPUT_SIZE: u64 = 0xffff_ffff;

/// The bound on the compressed size of `n` input bytes: `32 + n + n / 6`.
pub open spec fn max_compress_len(n: nat) -> nat {
    32 + n + n / 6
}

/// Whether `n` bytes can be compressed: their compressed bound still fits the
/// format's maximum size.
pub open spec fn compressible_len(n: nat) -> bool {
    max_compress_len(n) <= MAX_INPUT_SIZE
}

/// The Snappy raw-format compression of `b`, as `snap::raw::Encoder` computes it.
pub uninterp spec fn snappy_compressed(b: Seq<u8>) -> Seq<u8>;

/// The Snappy raw-format decompression of `b`: `None` where `b` is not a
/// well-formed compressed stream.
pub uninterp spec fn snappy_decompressed(b: Seq<u8>) -> Option<Seq<u8>>;

#[verifier::external_type_specification]
#[verifier::external_body]
pub struct ExSnapError(snap::Error);

/// Relies on `snap::raw::Encoder::compress_vec`: it fails exactly when
/// `max_compress_len` of the input length is 0 (the bound exceeds `2^32 - 1`);
/// otherwise it writes the compressed stream into a buffer of that bound and
/// truncates it to the bytes written. An empty input is encoded as the single
/// varint `0`.
#[verifier::external_body]
fn snap_compress_vec(input: &[u8]) -> (r: Result<Vec<u8>, snap::Error>)
    ensures
        r is Ok <==> compressible_len(input@.len()),
        r is Ok ==> r->Ok_0@ == snappy_compressed(input@),
        r is Ok ==> r->Ok_0@.len() <= max_compress_len(input@.len()),
        r is Ok && input@.len() == 0 ==> r->Ok_0@ == seq![0u8],
{
    snap::raw::Encoder::new().compress_vec(input)
}

/// Relies on `snap::raw::Decoder::decompress_vec`: it decompresses what
/// `snap::raw::Encoder` compressed, and fails on any stream that is not
/// well-formed. An empty input is rejected; a single byte is a complete
/// varint header only below `0x80`, and it describes an empty output only
/// when it is `0` (any other length finds no data and fails).
#[verifier::external_body]
fn snap_decompress_vec(input: &[u8]) -> (r: Result<Vec<u8>, snap::Error>)
    ensures
        match r {
            Ok(v) => snappy_decompressed(input@) == Some(v@),
            Err(_) => snappy_decompressed(input@) is None,
        },
        forall|x: Seq<u8>|
            compressible_len(x.len()) && snappy_compressed(x) == input@ ==> (r is Ok
                && r->Ok_0@ == x),
        input@.len() == 0 ==> r is Err,
        input@.len() == 1 ==> (r is Ok <==> input@[0] == 0),
        r is Ok && input@.len() == 1 ==> r->Ok_0@.len() == 0,
{
    snap::raw::Decoder::new().decompress_vec(input)
}

/// Why the codec produced no output.
#[derive(Clone, Copy, Debug, PartialEq, Eq)]
pub enum CodecError {
    /// The input is too long for the format to compress.
    TooLarge,
    /// The input is not a well-formed compressed stream.
    Malformed,
}

/// Compresses `input` into a freshly allocated buffer.
pub fn compress(input: &[u8]) -> (r: Result<Vec<u8>, CodecError>)
    ensures
        compressible_len(input@.len()) ==> r is Ok && r->Ok_0@ == snappy_compressed(input@),
        !compressible_len(input@.len()) ==> r == Err::<Vec<u8>, CodecError>(
            CodecError::TooLarge,
        ),
        r is Ok ==> r->Ok_0@.len() <= max_compress_len(input@.len()),
        r is Ok && input@.len() == 0 ==> r->Ok_0@ == seq![0u8],
{
    match snap_compress_vec(input) {
        Ok(v) => Ok(v),
        Err(_) => Err(CodecError::TooLarge),
    }
}

/// Decompresses `input` into a freshly allocated buffer.
pub fn decompress(input: &[u8]) -> (r: Result<Vec<u8>, CodecError>)
    ensures
        match snappy_decompressed(input@) {
            Some(v) => r is Ok && r->Ok_0@ == v,
            None => r == Err::<Vec<u8>, CodecError>(CodecError::Malformed),
        },
        forall|x: Seq<u8>|
            compressible_len(x.len()) && snappy_compressed(x) == input@ ==> (r is Ok
                && r->Ok_0@ == x),
        input@.len() == 0 ==> r == Err::<Vec<u8>, CodecError>(CodecError::Malformed),
        input@.len() == 1 && input@[0] != 0 ==> r == Err::<Vec<u8>, CodecError>(
            CodecError::Malformed,
        ),
        input@ == seq![0u8] ==> r is Ok && r->Ok_0@.len() == 0,
{
    match snap_decompress_vec(input) {
        Ok(v) => Ok(v),
        Err(_) => Err(CodecError::Malformed),
    }
}

} // verus!
