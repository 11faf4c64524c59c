use vstd::prelude::*;

use crate::digest::blake2b_digest;
use crate::digest::blake2b_of;
use crate::errors::ErrorModel;
use crate::errors::PipelineError;
use crate::hexstr::hex_decode;
use crate::hexstr::hex_decoded;
use crate::hexstr::hex_encode;
use crate::hexstr::hex_encoded;
use crate::hexstr::lemma_hex_decoded_len;
use crate::hexstr::valid_hex;

verus! {

/// The digest size, in bytes, that a hex-encoded expected digest selects:
/// its length in hex characters, divided by two.
pub open spec fn digest_len(expected_hex: Seq<char>) -> nat {
    expected_hex.len() / 2
}

/// Whether the selected digest size is one BLAKE2b can produce: 1 to 64
/// bytes.
pub open spec fn digest_len_supported(expected_hex: Seq<char>) -> bool {
    1 <= digest_len(expected_hex) <= 64
}

/// Whether `data` hashes to the expected digest: the hex string decodes and
/// its bytes equal the BLAKE2b digest of `data` at the self-described
/// length.
pub open spec fn digest_matches(expected_hex: Seq<char>, data: Seq<u8>) -> bool {
    &&& valid_hex(expected_hex)
    &&& hex_decoded(expected_hex) == blake2b_of(data, digest_len(expected_hex))
}

/// Everything `verify` may return on the given inputs: success exactly when
/// the digest matches, `InvalidDigestEncoding` exactly when the expected
/// digest is not hex, and otherwise a `ChecksumMismatch` that carries the
/// expected digest and the computed one, both hex-encoded.
pub open spec fn verify_post(
    expected_hex: Seq<char>,
    data: Seq<u8>,
    r: Result<(), PipelineError>,
) -> bool {
    if !valid_hex(expected_hex) {
        r matches Err(e) && e@ == ErrorModel::InvalidDigestEncoding
    } else if hex_decoded(expected_hex) == blake2b_of(data, digest_len(expected_hex)) {
        r is Ok
    } else {
        r matches Err(e) && e@ == (ErrorModel::ChecksumMismatch {
            expected: expected_hex,
            actual: hex_encoded(blake2b_of(data, digest_len(expected_hex))),
        })
    }
}

/// Exact equality of two byte strings.
fn bytes_equal(a: &[u8], b: &[u8]) -> (r: bool)
    ensures
        r == (a@ == b@),
{
    if a.len() != b.len() {
        proof {
            assert(a@.len() != b@.len());
        }
        return false;
    }
    let mut i: usize = 0;
    while i < a.len()
        invariant
            i <= a@.len(),
            a@.len() == b@.len(),
            forall|j: int| 0 <= j < i ==> a@[j] == b@[j],
        decreases a@.len() - i,
    {
        if a[i] != b[i] {
            return false;
        }
        i = i + 1;
    }
    proof {
        assert(a@ =~= b@);
    }
    true
}

/// Content verification: compute the BLAKE2b digest of `data` at the length
/// the expected hex digest describes, and compare byte for byte. It has no
/// side effects; the cached and the freshly fetched bytes go through this
/// one function.
pub fn verify(expected_hex: &str, data: &[u8]) -> (r: Result<(), PipelineError>)
    requires
        digest_len_supported(expected_hex@),
    ensures
        verify_post(expected_hex@, data@, r),
{
    match hex_decode(expected_hex) {
        None => Err(PipelineError::InvalidDigestEncoding),
        Some(expected_bytes) => {
            proof {
                lemma_hex_decoded_len(expected_hex@);
            }
            let n = expected_bytes.len();
            let computed = blake2b_digest(data, n);
            if bytes_equal(expected_bytes.as_slice(), computed.as_slice()) {
                Ok(())
            } else {
                Err(PipelineError::ChecksumMismatch {
                    expected: expected_hex.to_owned(),
                    actual: hex_encode(computed.as_slice()),
                })
            }
        },
    }
}

/// Verification is a function of the expected digest and the bytes alone:
/// any two results that `verify` may return for the same inputs agree, so
/// verifying the same buffer against the same expected digest twice yields
/// the same result.
pub proof fn lemma_verify_deterministic(
    expected_hex: Seq<char>,
    data: Seq<u8>,
    r1: Result<(), PipelineError>,
    r2: Result<(), PipelineError>,
)
    requires
        verify_post(expected_hex, data, r1),
        verify_post(expected_hex, data, r2),
    ensures
        r1 is Ok <==> r2 is Ok,
        r1 matches Err(e1) ==> r2 matches Err(e2) && e1@ == e2@,
{
}

} // verus!
