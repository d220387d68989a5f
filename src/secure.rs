use vstd::prelude::*;

use crypto::mac::Mac;

verus! {

/// Length in bytes of an HMAC-SHA1 code.
pub const DIGEST_LEN: usize = 20;

/// An error that is returned when a signature does not match the payload.
#[derive(Clone, Copy, Debug, PartialEq, Eq, Structural)]
pub struct Forbidden;

/// The HMAC-SHA1 code of `data` under `key`.
pub uninterp spec fn hmac_sha1(key: Seq<u8>, data: Seq<u8>) -> Seq<u8>;

/// Whether `signature` is the HMAC-SHA1 code of `data` under `key`.
pub open spec fn signature_matches(data: Seq<u8>, key: Seq<u8>, signature: Seq<u8>) -> bool {
    signature == hmac_sha1(key, data)
}

/// Relies on rust-crypto's `Hmac<Sha1>` (`new`, `input`, `result`): the code
/// depends on the key and the data alone, and SHA-1 gives 160 bits.
#[verifier::external_body]
fn hmac_sha1_code(key: &[u8], data: &[u8]) -> (r: Vec<u8>)
    ensures
        r@ == hmac_sha1(key@, data@),
        r@.len() == DIGEST_LEN,
{
    let mut hmac = crypto::hmac::Hmac::new(crypto::sha1::Sha1::new(), key);
    hmac.input(data);
    hmac.result().code().to_vec()
}

/// Relies on rust-crypto's `util::fixed_time_eq`: equality of two byte
/// strings, `false` on different lengths, with no early exit otherwise. On two
/// empty strings it reads the first byte of each, so they are left out.
#[verifier::external_body]
fn fixed_time_eq(lhs: &[u8], rhs: &[u8]) -> (r: bool)
    requires
        lhs@.len() > 0 || rhs@.len() > 0,
    ensures
        r == (lhs@ == rhs@),
{
    crypto::util::fixed_time_eq(lhs, rhs)
}

/// Checks that `signature` is the HMAC-SHA1 code of `data` under `key`. The
/// comparison takes the same time wherever the first differing byte is; a
/// signature of another length is a mismatch.
pub fn verify(data: &[u8], key: &[u8], signature: &[u8]) -> (r: Result<(), Forbidden>)
    ensures
        r.is_ok() == signature_matches(data@, key@, signature@),
        hmac_sha1(key@, data@).len() == DIGEST_LEN,
        signature@.len() != DIGEST_LEN ==> r.is_err(),
{
    let code = hmac_sha1_code(key, data);
    check_code(code.as_slice(), signature)
}

/// Checks a claimed code against the expected one, in time that does not
/// depend on where they first differ; codes of different lengths differ.
pub fn check_code(expected: &[u8], signature: &[u8]) -> (r: Result<(), Forbidden>)
    ensures
        r.is_ok() == (expected@ == signature@),
{
    if expected.len() == 0 && signature.len() == 0 {
        assert(expected@ =~= signature@);
        return Ok(());
    }
    if fixed_time_eq(expected, signature) {
        Ok(())
    } else {
        Err(Forbidden)
    }
}

/// The signature flipped at bit `bit` of byte `i`.
pub open spec fn flip_bit(s: Seq<u8>, i: int, bit: u8) -> Seq<u8> {
    s.update(i, s[i] ^ (1u8 << bit))
}

/// The code computed for a payload and key is accepted for them, and the
/// same code with any single bit flipped is refused.
pub proof fn lemma_own_code_accepted(data: Seq<u8>, key: Seq<u8>, i: int, bit: u8)
    requires
        0 <= i < hmac_sha1(key, data).len(),
        bit < 8,
    ensures
        signature_matches(data, key, hmac_sha1(key, data)),
        !signature_matches(data, key, flip_bit(hmac_sha1(key, data), i, bit)),
{
    let code = hmac_sha1(key, data);
    let x = code[i];
    assert(x ^ (1u8 << bit) != x) by (bit_vector)
        requires
            bit < 8,
    ;
    assert(flip_bit(code, i, bit)[i] != code[i]);
}

/// A code computed for one payload and key is refused for the payload or the
/// key with a bit flipped, wherever the flipped input has a code of its own
/// that differs. That the codes differ is HMAC-SHA1's resistance to
/// collisions, which is assumed here and not proved.
pub proof fn lemma_flipped_input_refused(data: Seq<u8>, key: Seq<u8>, i: int, bit: u8)
    requires
        bit < 8,
        0 <= i < data.len() ==> hmac_sha1(key, flip_bit(data, i, bit)) != hmac_sha1(key, data),
        0 <= i < key.len() ==> hmac_sha1(flip_bit(key, i, bit), data) != hmac_sha1(key, data),
    ensures
        0 <= i < data.len() ==> !signature_matches(flip_bit(data, i, bit), key, hmac_sha1(key, data)),
        0 <= i < key.len() ==> !signature_matches(data, flip_bit(key, i, bit), hmac_sha1(key, data)),
{
}

} // verus!
