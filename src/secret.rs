//! Secret generation: random bytes in base64 text.
use vstd::prelude::*;

verus! {

/// The base64 digit for the 6-bit value `v`, in the standard alphabet.
pub open spec fn base64_digit(v: int) -> char {
    "ABCDEFGHIJKLMNOPQRSTUVWXYZabcdefghijklmnopqrstuvwxyz0123456789+/"@[v]
}

/// The standard base64 text of `bytes`: each group of three bytes becomes four
/// digits, and a final group of one or two bytes is padded with `=`.
pub open spec fn base64_standard(bytes: Seq<u8>) -> Seq<char>
    decreases bytes.len(),
{
    if bytes.len() == 0 {
        Seq::empty()
    } else if bytes.len() == 1 {
        seq![
            base64_digit((bytes[0] as int) / 4),
            base64_digit(((bytes[0] as int) % 4) * 16),
            '=',
            '=',
        ]
    } else if bytes.len() == 2 {
        seq![
            base64_digit((bytes[0] as int) / 4),
            base64_digit(((bytes[0] as int) % 4) * 16 + (bytes[1] as int) / 16),
            base64_digit(((bytes[1] as int) % 16) * 4),
            '=',
        ]
    } else {
        seq![
            base64_digit((bytes[0] as int) / 4),
            base64_digit(((bytes[0] as int) % 4) * 16 + (bytes[1] as int) / 16),
            base64_digit(((bytes[1] as int) % 16) * 4 + (bytes[2] as int) / 64),
            base64_digit((bytes[2] as int) % 64),
        ] + base64_standard(bytes.subrange(3, bytes.len() as int))
    }
}

/// Four characters for each started group of three bytes.
pub proof fn lemma_base64_len(bytes: Seq<u8>)
    ensures
        base64_standard(bytes).len() == 4 * ((bytes.len() + 2) / 3),
    decreases bytes.len(),
{
    if bytes.len() >= 3 {
        lemma_base64_len(bytes.subrange(3, bytes.len() as int));
    }
}

/// Relies on base64's `Engine::encode` with the `STANDARD` engine: the padded
/// standard encoding. The size computation panics only past `usize::MAX`, which
/// the bound keeps well clear of.
#[verifier::external_body]
fn encode_base64(bytes: &Vec<u8>) -> (r: String)
    requires
        bytes@.len() <= 0x1000_0000,
    ensures
        r@ == base64_standard(bytes@),
{
    base64::Engine::encode(&base64::engine::general_purpose::STANDARD, bytes)
}

/// How many random bytes a secret holds.
pub const SECRET_BYTES: usize = 32;

/// Relies on rand's `thread_rng` and `RngCore::fill_bytes`: every byte of the
/// buffer is overwritten with random data; its length stays as it was.
#[verifier::external_body]
fn fill_random(buf: &mut Vec<u8>)
    ensures
        final(buf)@.len() == old(buf)@.len(),
{
    rand::RngCore::fill_bytes(&mut rand::thread_rng(), buf.as_mut_slice())
}

/// `text` is the standard base64 form of some 32 bytes.
pub open spec fn is_secret_text(text: Seq<char>) -> bool {
    exists|b: Seq<u8>| b.len() == SECRET_BYTES && text == base64_standard(b)
}

/// A fresh secret: 32 random bytes in standard base64 (44 characters).
pub fn generate_random_secret() -> (r: String)
    ensures
        is_secret_text(r@),
        r@.len() == 44,
{
    let mut bytes: Vec<u8> = Vec::new();
    while bytes.len() < SECRET_BYTES
        invariant
            bytes@.len() <= SECRET_BYTES,
        decreases SECRET_BYTES - bytes@.len(),
    {
        bytes.push(0u8);
    }
    fill_random(&mut bytes);
    let r = encode_base64(&bytes);
    proof {
        lemma_base64_len(bytes@);
    }
    assert(bytes@.len() == SECRET_BYTES && r@ == base64_standard(bytes@));
    r
}

} // verus!
