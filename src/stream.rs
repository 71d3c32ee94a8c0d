//! The compressed block that holds a replay's action stream.
use vstd::prelude::*;

verus! {

/// Memory the LZMA decoder may use, in bytes.
pub const LZMA_MEMLIMIT: u64 = 5_242_880;

/// What the LZMA ("lzma_alone") decoder makes of `block` with memory limit
/// `memlimit`: the inflated bytes, or `None` where it fails.
pub uninterp spec fn lzma_inflate(block: Seq<u8>, memlimit: nat) -> Option<Seq<u8>>;

/// Relies on xz2: `Stream::new_lzma_decoder` with the given memory limit, read
/// to its end through `bufread::XzDecoder`; the output depends on the block
/// and the limit alone.
#[verifier::external_body]
fn lzma_decode(block: &[u8], memlimit: u64) -> (r: Option<Vec<u8>>)
    ensures
        match r {
            Some(v) => lzma_inflate(block@, memlimit as nat) == Some(v@),
            None => lzma_inflate(block@, memlimit as nat) is None,
        },
{
    let stream = match xz2::stream::Stream::new_lzma_decoder(memlimit) {
        Ok(s) => s,
        Err(_) => return None,
    };
    let mut out: Vec<u8> = Vec::new();
    match std::io::Read::read_to_end(&mut xz2::bufread::XzDecoder::new_stream(block, stream), &mut out) {
        Ok(_) => Some(out),
        Err(_) => None,
    }
}

/// Inflates a compressed action block.
pub fn inflate(block: &[u8]) -> (r: Option<Vec<u8>>)
    ensures
        match r {
            Some(v) => lzma_inflate(block@, LZMA_MEMLIMIT as nat) == Some(v@),
            None => lzma_inflate(block@, LZMA_MEMLIMIT as nat) is None,
        },
{
    lzma_decode(block, LZMA_MEMLIMIT)
}

} // verus!
