use blake2::digest::Update;
use blake2::digest::VariableOutput;
use vstd::prelude::*;

verus! {

/// What the BLAKE2b digest of `data` at an output length of `out_len` bytes
/// is. The algorithm itself is not restated here: the digest depends on the
/// input bytes and the requested length alone, and that is all the library
/// assumes of it.
pub uninterp spec fn blake2b_of(data: Seq<u8>, out_len: nat) -> Seq<u8>;

/// Relies on blake2::Blake2bVar (`new`, `update`, `finalize_variable`): the
/// BLAKE2b digest of `data` at a chosen output length, which must lie
/// between 1 and 64 bytes for `new` to accept it; the digest fills exactly
/// `out_len` bytes and depends on `data` and `out_len` alone.
#[verifier::external_body]
pub(crate) fn blake2b_digest(data: &[u8], out_len: usize) -> (r: Vec<u8>)
    requires
        1 <= out_len <= 64,
    ensures
        r@ == blake2b_of(data@, out_len as nat),
        r@.len() == out_len,
{
    let mut hasher = blake2::Blake2bVar::new(out_len).expect("output length in range");
    hasher.update(data);
    let mut out = vec![0u8; out_len];
    hasher.finalize_variable(&mut out).expect("buffer sized to the output length");
    out
}

} // verus!
