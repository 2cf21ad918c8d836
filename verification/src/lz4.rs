//! The size-prefixed LZ4 block format, as provided by `lz4_flex`.
//!
//! Nothing in this file is proved: the contracts restate what `lz4_flex`
//! documents, and the rest of the crate is verified against them.

use vstd::prelude::*;

verus! {

/// The error of `lz4_flex`'s block decompression, taken as opaque.
#[verifier::external_type_specification]
#[verifier::external_body]
pub struct ExDecompressError(lz4_flex::block::DecompressError);

/// The bytes that `lz4_flex::block::decompress_size_prepended` yields for
/// `block`, or `None` where it reports an error.
pub uninterp spec fn lz4_decoded(block: Seq<u8>) -> Option<Seq<u8>>;

/// The length that the first four bytes of a block declare, read as a
/// little-endian 32-bit number.
pub open spec fn declared_size(block: Seq<u8>) -> nat
    recommends
        block.len() >= 4,
{
    (block[0] as nat) + 256 * (block[1] as nat) + 65536 * (block[2] as nat) + 16777216 * (
    block[3] as nat)
}

/// Calls `lz4_flex::block::compress_prepend_size`.
///
/// Trusted: the block starts with the length of `input` as four little-endian
/// bytes, and decompressing the block gives `input` back. Both are claimed
/// only for inputs whose length fits the 32-bit prefix.
#[verifier::external_body]
pub(crate) fn compress_block(input: &[u8]) -> (block: Vec<u8>)
    ensures
        block@.len() >= 4,
        input@.len() <= u32::MAX ==> declared_size(block@) == input@.len(),
        input@.len() <= u32::MAX ==> lz4_decoded(block@) == Some(input@),
{
    lz4_flex::block::compress_prepend_size(input)
}

/// Calls `lz4_flex::block::decompress_size_prepended`.
///
/// Trusted: the outcome depends on the bytes of `block` alone, so it is
/// named by [`lz4_decoded`].
#[verifier::external_body]
pub(crate) fn decompress_block(block: &[u8]) -> (r: Result<
    Vec<u8>,
    lz4_flex::block::DecompressError,
>)
    ensures
        match r {
            Ok(bytes) => lz4_decoded(block@) == Some(bytes@),
            Err(_) => lz4_decoded(block@) is None,
        },
{
    lz4_flex::block::decompress_size_prepended(block)
}

} // verus!
