use crate::types::Fingerprint;
use vstd::prelude::*;
use vstd::string::StringSliceAdditionalSpecFns;

verus! {

/// The Keccak-256 digest of a byte sequence.
pub uninterp spec fn keccak_of(data: Seq<u8>) -> Seq<u8>;

/// Relies on stylus_sdk::crypto::keccak: the 32-byte Keccak-256 digest of the
/// bytes, which depends on the bytes alone.
#[verifier::external_body]
fn keccak(data: &[u8]) -> (r: Fingerprint)
    ensures
        r.bytes@ == keccak_of(data@),
{
    Fingerprint { bytes: stylus_sdk::crypto::keccak(data).0 }
}

/// The fingerprint of a text: the digest of its UTF-8 bytes.
pub open spec fn text_fingerprint(text: &str) -> Seq<u8> {
    keccak_of(text.spec_bytes())
}

/// Fingerprints a text.
pub fn fingerprint(text: &str) -> (r: Fingerprint)
    ensures
        r.bytes@ == text_fingerprint(text),
{
    keccak(text.as_bytes())
}

/// Whether a text's length in bytes lies in `1..=max`.
pub open spec fn text_fits(text: &str, max: nat) -> bool {
    1 <= text.spec_bytes().len() <= max
}

/// Checks a text's length in bytes against `1..=max`.
pub fn check_text(text: &str, max: usize) -> (r: bool)
    ensures
        r == text_fits(text, max as nat),
{
    let n = text.as_bytes().len();
    1 <= n && n <= max
}

} // verus!
