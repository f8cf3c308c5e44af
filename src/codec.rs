//! Compression of the cached artifact, through the `zstd` crate.

use vstd::prelude::*;

verus! {

/// What `zstd::decode_all` yields for `frame`: the decompressed bytes, or
/// `None` where the input is not a well-formed compressed stream.
pub uninterp spec fn zstd_decoded(frame: Seq<u8>) -> Option<Seq<u8>>;

/// Relies on `zstd::encode_all` (at `zstd::DEFAULT_COMPRESSION_LEVEL`): on an
/// in-memory slice it fails only where allocation fails, which aborts, so it
/// succeeds; and the codec is lossless, so what it produces decodes back to
/// its input.
#[verifier::external_body]
pub(crate) fn compress(data: &Vec<u8>) -> (r: Option<Vec<u8>>)
    ensures
        r is Some,
        r matches Some(frame) ==> zstd_decoded(frame@) == Some(data@),
{
    zstd::encode_all(data.as_slice(), zstd::DEFAULT_COMPRESSION_LEVEL).ok()
}

/// Relies on `zstd::decode_all`: it fails on malformed input and otherwise
/// returns the decompressed content.
#[verifier::external_body]
pub(crate) fn decompress(frame: &Vec<u8>) -> (r: Option<Vec<u8>>)
    ensures
        r is Some <==> zstd_decoded(frame@) is Some,
        r matches Some(data) ==> zstd_decoded(frame@) == Some(data@),
{
    zstd::decode_all(frame.as_slice()).ok()
}

} // verus!
