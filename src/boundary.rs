//! The buffer-exchange contract: a borrowed input region goes in, and either
//! an owned result buffer whose size fits a 32-bit signed slot comes out, or
//! nothing does.

use vstd::prelude::*;
use crate::codec::{
    compress, compressible_len, decompress, max_compress_len, snappy_compressed,
    snappy_decompressed, CodecError,
};

verus! {

/// The largest size a 32-bit signed size slot can report.
pub const MAX_SLOT_SIZE: usize = 0x7fff_ffff;

/// An owned result buffer together with the size reported for it.
///
/// It is always freshly allocated by the codec, so it never shares memory
/// with the borrowed input it was computed from; its reported size is
/// always its exact length.
pub struct OwnedBuffer {
    data: Vec<u8>,
    size: i32,
}

impl View for OwnedBuffer {
    type V = Seq<u8>;

    closed spec fn view(&self) -> Seq<u8> {
        self.data@
    }
}

impl OwnedBuffer {
    #[verifier::type_invariant]
    spec fn size_matches(&self) -> bool {
        self.size as int == self.data@.len()
    }

    /// The size to write into the caller's size slot: the number of bytes
    /// in the buffer.
    pub fn size(&self) -> (r: i32)
        ensures
            r as int == self@.len(),
    {
        proof {
            use_type_invariant(self);
        }
        self.size
    }

    /// The bytes of the buffer.
    pub fn as_slice(&self) -> (r: &[u8])
        ensures
            r@ == self@,
    {
        self.data.as_slice()
    }

    /// Hands the buffer's ownership over as a plain vector.
    pub fn into_vec(self) -> (r: Vec<u8>)
        ensures
            r@ == self@,
    {
        self.data
    }
}

/// Turns a codec result into what crosses the boundary: the output as an
/// owned handle, or `None` (the null sentinel) when the codec failed or the
/// output is too long for its size to be reported.
pub fn hand_off(result: Result<Vec<u8>, CodecError>) -> (r: Option<OwnedBuffer>)
    ensures
        match result {
            Ok(v) => if v@.len() <= MAX_SLOT_SIZE {
                r is Some && r->Some_0@ == v@
            } else {
                r is None
            },
            Err(_) => r is None,
        },
{
    match result {
        Ok(v) => {
            if v.len() <= MAX_SLOT_SIZE {
                let size = v.len() as i32;
                Some(OwnedBuffer { data: v, size })
            } else {
                None
            }
        },
        Err(_) => None,
    }
}

/// Compresses the bytes of `src` into a new owned buffer, or returns `None`
/// when the codec cannot compress them or the result's size does not fit
/// the size slot.
pub fn encode_binary(src: &[u8]) -> (r: Option<OwnedBuffer>)
    ensures
        r is Some <==> compressible_len(src@.len()) && snappy_compressed(src@).len()
            <= MAX_SLOT_SIZE,
        r is Some ==> r->Some_0@ == snappy_compressed(src@),
        max_compress_len(src@.len()) <= MAX_SLOT_SIZE ==> r is Some,
        src@.len() == 0 ==> r is Some && r->Some_0@ == seq![0u8],
{
    hand_off(compress(src))
}

/// Decompresses the bytes of `src` into a new owned buffer, or returns
/// `None` when they are not a well-formed compressed stream or the result's
/// size does not fit the size slot.
///
/// Whatever `encode_binary` produced from some bytes decodes back to exactly
/// those bytes.
pub fn decode_binary(src: &[u8]) -> (r: Option<OwnedBuffer>)
    ensures
        match snappy_decompressed(src@) {
            Some(v) => if v.len() <= MAX_SLOT_SIZE {
                r is Some && r->Some_0@ == v
            } else {
                r is None
            },
            None => r is None,
        },
        forall|x: Seq<u8>|
            compressible_len(x.len()) && x.len() <= MAX_SLOT_SIZE && snappy_compressed(x)
                == src@ ==> (r is Some && r->Some_0@ == x),
        src@.len() == 0 ==> r is None,
        src@.len() == 1 && src@[0] != 0 ==> r is None,
        src@ == seq![0u8] ==> r is Some && r->Some_0@.len() == 0,
{
    hand_off(decompress(src))
}

} // verus!
