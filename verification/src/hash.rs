//! Content hashing: SHA-256 digests written as lower-case hex.

use vstd::prelude::*;
use sha2::Digest;

verus! {

/// The SHA-256 digest of a byte sequence, as computed by the `sha2` crate.
pub uninterp spec fn spec_sha256(data: Seq<u8>) -> Seq<u8>;

/// `sha2::Sha256::digest`: the 32-byte SHA-256 digest of `data`.
/// Claimed: the result is the digest named `spec_sha256` of the input and
/// has 32 bytes (the crate's output type for SHA-256 is a 32-byte array).
#[verifier::external_body]
fn sha256_digest(data: &[u8]) -> (r: Vec<u8>)
    ensures
        r@ == spec_sha256(data@),
        r@.len() == 32,
{
    sha2::Sha256::digest(data).to_vec()
}

/// The lower-case hex digit for a value below 16.
pub open spec fn hex_char(v: nat) -> char {
    if v < 10 {
        crate::text::digit_char(v)
    } else if v == 10 { 'a' }
    else if v == 11 { 'b' }
    else if v == 12 { 'c' }
    else if v == 13 { 'd' }
    else if v == 14 { 'e' }
    else { 'f' }
}

/// Lower-case hex text of a byte sequence, two digits per byte.
pub open spec fn spec_hex_lower(data: Seq<u8>) -> Seq<char>
    decreases data.len(),
{
    if data.len() == 0 {
        Seq::empty()
    } else {
        spec_hex_lower(data.drop_last()) + seq![
            hex_char((data.last() / 16) as nat),
            hex_char((data.last() % 16) as nat),
        ]
    }
}

fn hex_str(v: u8) -> (s: &'static str)
    requires
        v < 16,
    ensures
        s@ == seq![hex_char(v as nat)],
{
    proof {
        reveal_strlit("0"); reveal_strlit("1"); reveal_strlit("2"); reveal_strlit("3");
        reveal_strlit("4"); reveal_strlit("5"); reveal_strlit("6"); reveal_strlit("7");
        reveal_strlit("8"); reveal_strlit("9"); reveal_strlit("a"); reveal_strlit("b");
        reveal_strlit("c"); reveal_strlit("d"); reveal_strlit("e"); reveal_strlit("f");
    }
    if v == 0 { "0" } else if v == 1 { "1" } else if v == 2 { "2" } else if v == 3 { "3" }
    else if v == 4 { "4" } else if v == 5 { "5" } else if v == 6 { "6" } else if v == 7 { "7" }
    else if v == 8 { "8" } else if v == 9 { "9" } else if v == 10 { "a" } else if v == 11 { "b" }
    else if v == 12 { "c" } else if v == 13 { "d" } else if v == 14 { "e" } else { "f" }
}

/// Writes bytes as lower-case hex, two digits per byte (`{:02x}`).
pub fn hex_lower(data: &[u8]) -> (r: String)
    ensures
        r@ == spec_hex_lower(data@),
        r@.len() == 2 * data@.len(),
{
    let mut r = String::new();
    let mut i: usize = 0;
    while i < data.len()
        invariant
            0 <= i <= data@.len(),
            r@ == spec_hex_lower(data@.take(i as int)),
            r@.len() == 2 * i,
        decreases data@.len() - i,
    {
        let b = data[i];
        assert(data@.take(i + 1).drop_last() =~= data@.take(i as int));
        r.append(hex_str(b / 16));
        r.append(hex_str(b % 16));
        i = i + 1;
    }
    assert(data@.take(data@.len() as int) =~= data@);
    r
}

/// The SHA-256 digest of `content` in lower-case hex (64 characters).
pub fn sha256_hex(content: &[u8]) -> (r: String)
    ensures
        r@ == spec_hex_lower(spec_sha256(content@)),
        r@.len() == 64,
{
    let digest = sha256_digest(content);
    hex_lower(digest.as_slice())
}

} // verus!
