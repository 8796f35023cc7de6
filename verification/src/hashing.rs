//! The commitment module: a deterministic digest binding a URL to a
//! fixed-width lowercase hexadecimal string, used identically by the
//! attesting program and by the verifying caller.

use vstd::prelude::*;
use sha2::{Digest, Sha256};

verus! {

/// The SHA-256 digest of a byte string, as the `sha2` crate computes it.
/// It depends on the input bytes alone.
pub uninterp spec fn sha256_of(bytes: Seq<u8>) -> Seq<u8>;

/// Relies on `sha2::Sha256` (`Digest::digest`): a pure function of the
/// input bytes whose result is a 32-byte digest.
#[verifier::external_body]
fn sha256_digest(bytes: &[u8]) -> (r: Vec<u8>)
    ensures
        r@ == sha256_of(bytes@),
        r@.len() == 32,
{
    Sha256::digest(bytes).to_vec()
}

/// Relies on `String::push`: appends one character at the end.
#[verifier::external_body]
fn push_char(s: &mut String, c: char)
    ensures
        final(s)@ == old(s)@.push(c),
{
    s.push(c);
}

/// The lowercase hexadecimal character for one value below 16.
pub open spec fn hex_digit_of(n: u8) -> char {
    if n == 0 {
        '0'
    } else if n == 1 {
        '1'
    } else if n == 2 {
        '2'
    } else if n == 3 {
        '3'
    } else if n == 4 {
        '4'
    } else if n == 5 {
        '5'
    } else if n == 6 {
        '6'
    } else if n == 7 {
        '7'
    } else if n == 8 {
        '8'
    } else if n == 9 {
        '9'
    } else if n == 10 {
        'a'
    } else if n == 11 {
        'b'
    } else if n == 12 {
        'c'
    } else if n == 13 {
        'd'
    } else if n == 14 {
        'e'
    } else {
        'f'
    }
}

fn hex_digit(n: u8) -> (c: char)
    requires
        n < 16,
    ensures
        c == hex_digit_of(n),
{
    if n == 0 {
        '0'
    } else if n == 1 {
        '1'
    } else if n == 2 {
        '2'
    } else if n == 3 {
        '3'
    } else if n == 4 {
        '4'
    } else if n == 5 {
        '5'
    } else if n == 6 {
        '6'
    } else if n == 7 {
        '7'
    } else if n == 8 {
        '8'
    } else if n == 9 {
        '9'
    } else if n == 10 {
        'a'
    } else if n == 11 {
        'b'
    } else if n == 12 {
        'c'
    } else if n == 13 {
        'd'
    } else if n == 14 {
        'e'
    } else {
        'f'
    }
}

/// The lowercase hexadecimal encoding of a byte string: two digits for
/// each byte, high nibble first.
pub open spec fn hex_of(bytes: Seq<u8>) -> Seq<char>
    decreases bytes.len(),
{
    if bytes.len() == 0 {
        Seq::empty()
    } else {
        hex_of(bytes.drop_last()).push(hex_digit_of(bytes.last() / 16)).push(
            hex_digit_of(bytes.last() % 16),
        )
    }
}

pub proof fn lemma_hex_of_len(bytes: Seq<u8>)
    ensures
        hex_of(bytes).len() == 2 * bytes.len(),
    decreases bytes.len(),
{
    if bytes.len() > 0 {
        lemma_hex_of_len(bytes.drop_last());
    }
}

/// Encodes a byte string as lowercase hexadecimal.
pub fn to_hex(bytes: &[u8]) -> (r: String)
    ensures
        r@ == hex_of(bytes@),
        r@.len() == 2 * bytes@.len(),
{
    let mut r = String::new();
    let mut i: usize = 0;
    while i < bytes.len()
        invariant
            i <= bytes@.len(),
            r@ == hex_of(bytes@.subrange(0, i as int)),
        decreases bytes@.len() - i,
    {
        let b = bytes[i];
        assert(b / 16 < 16);
        push_char(&mut r, hex_digit(b / 16));
        push_char(&mut r, hex_digit(b % 16));
        proof {
            let prefix = bytes@.subrange(0, i + 1);
            assert(prefix.drop_last() =~= bytes@.subrange(0, i as int));
            assert(prefix.last() == bytes@[i as int]);
        }
        i = i + 1;
    }
    proof {
        assert(bytes@.subrange(0, bytes@.len() as int) =~= bytes@);
        lemma_hex_of_len(bytes@);
    }
    r
}

/// Whether a character can appear in a hexadecimal encoding: a decimal
/// digit or a lowercase letter from `a` to `f`.
pub open spec fn is_hex_char(c: char) -> bool {
    ('0' <= c && c <= '9') || ('a' <= c && c <= 'f')
}

/// A hexadecimal encoding holds nothing but lowercase hex digits.
pub proof fn lemma_hex_of_digits(bytes: Seq<u8>)
    ensures
        forall|i: int| 0 <= i < hex_of(bytes).len() ==> is_hex_char(hex_of(bytes)[i]),
    decreases bytes.len(),
{
    if bytes.len() > 0 {
        lemma_hex_of_digits(bytes.drop_last());
        let prefix = hex_of(bytes.drop_last());
        let d1 = hex_digit_of(bytes.last() / 16);
        let d2 = hex_digit_of(bytes.last() % 16);
        let whole = hex_of(bytes);
        assert(whole == prefix.push(d1).push(d2));
        assert forall|i: int| 0 <= i < whole.len() implies is_hex_char(whole[i]) by {
            if i < prefix.len() {
                assert(whole[i] == prefix[i]);
            } else if i == prefix.len() {
                assert(whole[i] == d1);
            } else {
                assert(whole[i] == d2);
            }
        }
    }
}

/// The commitment digest of a request identifier: the lowercase
/// hexadecimal encoding of the SHA-256 digest of its UTF-8 bytes.
pub open spec fn request_hash_of(url: Seq<char>) -> Seq<char> {
    hex_of(sha256_of(vstd::utf8::encode_utf8(url)))
}

/// Derives the commitment binding a request identifier to a fixed-width
/// digest. Deterministic and free of side effects: the result depends on
/// the identifier alone.
pub fn generate_request_hash(url: &str) -> (r: String)
    ensures
        r@ == request_hash_of(url@),
        r@.len() == 64,
{
    let digest = sha256_digest(url.as_bytes());
    to_hex(digest.as_slice())
}

/// Recomputes the commitment for `url` and compares it byte-for-byte with
/// the hash carried by an envelope. A mismatch means the attested response
/// does not correspond to the request the caller believes it made.
pub fn verify_response(received_hash: &str, url: &str) -> (r: bool)
    ensures
        r == (received_hash@ == request_hash_of(url@)),
{
    let expected_hash = generate_request_hash(url);
    let received = received_hash.to_owned();
    expected_hash == received
}

/// The commitment is deterministic: identical identifiers yield identical
/// digests, across any two environments that compute it.
pub proof fn lemma_commitment_deterministic(u1: Seq<char>, u2: Seq<char>)
    requires
        u1 == u2,
    ensures
        request_hash_of(u1) == request_hash_of(u2),
{
}

} // verus!
