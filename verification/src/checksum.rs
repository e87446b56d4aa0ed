//! Content hashing for resume verification.
//!
//! The digest is SHA-256, hex-encoded in lower case.  Only the digest
//! computation itself is trusted; the hex encoding and the prefix
//! bounding are verified here.

use vstd::prelude::*;

verus! {

/// The SHA-256 digest of a byte sequence.
pub uninterp spec fn sha256_of(data: Seq<u8>) -> Seq<u8>;

/// Relies on sha2::Sha256 through Digest::digest: the digest is a function
/// of the input bytes alone, and is 32 bytes long.
#[verifier::external_body]
fn sha256(data: &[u8]) -> (r: Vec<u8>)
    ensures
        r@ == sha256_of(data@),
        r@.len() == 32,
{
    <sha2::Sha256 as sha2::Digest>::digest(data).to_vec()
}

/// The lower-case hexadecimal digit for a value below 16.
pub open spec fn hex_digit_spec(n: u8) -> char {
    if n == 0 {
        '0'
    } else if n == 1 {
        '1'
    } else if n == 2 {
        '2'
    } else if n == 3 {
        '3'
    } else if n == 4 {
        '4'
    } else if n == 5 {
        '5'
    } else if n == 6 {
        '6'
    } else if n == 7 {
        '7'
    } else if n == 8 {
        '8'
    } else if n == 9 {
        '9'
    } else if n == 10 {
        'a'
    } else if n == 11 {
        'b'
    } else if n == 12 {
        'c'
    } else if n == 13 {
        'd'
    } else if n == 14 {
        'e'
    } else {
        'f'
    }
}

/// The lower-case hex encoding of a byte sequence, two digits per byte.
pub open spec fn hex_of(bytes: Seq<u8>) -> Seq<char>
    decreases bytes.len(),
{
    if bytes.len() == 0 {
        Seq::<char>::empty()
    } else {
        hex_of(bytes.drop_last()) + seq![
            hex_digit_spec((bytes.last() / 16) as u8),
            hex_digit_spec((bytes.last() % 16) as u8),
        ]
    }
}

fn hex_digit(n: u8) -> (c: char)
    requires
        n < 16,
    ensures
        c == hex_digit_spec(n),
{
    match n {
        0 => '0',
        1 => '1',
        2 => '2',
        3 => '3',
        4 => '4',
        5 => '5',
        6 => '6',
        7 => '7',
        8 => '8',
        9 => '9',
        10 => 'a',
        11 => 'b',
        12 => 'c',
        13 => 'd',
        14 => 'e',
        _ => 'f',
    }
}

/// Hex-encodes a byte vector, two lower-case digits per byte.
pub fn hex_encode(bytes: &Vec<u8>) -> (s: String)
    ensures
        s@ == hex_of(bytes@),
        s@.len() == 2 * bytes@.len(),
{
    let mut s = String::new();
    let mut i: usize = 0;
    proof {
        lemma_hex_of_len(bytes@.take(0));
    }
    while i < bytes.len()
        invariant
            i <= bytes@.len(),
            s@ == hex_of(bytes@.take(i as int)),
            s@.len() == 2 * i,
        decreases bytes.len() - i,
    {
        let b = bytes[i];
        s.push(crate::checksum::hex_digit(b / 16));
        s.push(crate::checksum::hex_digit(b % 16));
        i = i + 1;
        proof {
            assert(bytes@.take(i as int).drop_last() =~= bytes@.take(i as int - 1));
            assert(bytes@.take(i as int).last() == b);
            assert(s@ =~= hex_of(bytes@.take(i as int)));
        }
    }
    proof {
        assert(bytes@.take(bytes@.len() as int) =~= bytes@);
    }
    s
}

/// The hex encoding is twice as long as its input.
pub proof fn lemma_hex_of_len(bytes: Seq<u8>)
    ensures
        hex_of(bytes).len() == 2 * bytes.len(),
    decreases bytes.len(),
{
    if bytes.len() > 0 {
        lemma_hex_of_len(bytes.drop_last());
    }
}

/// The hex-encoded SHA-256 digest of a byte sequence: what the engine
/// compares when it verifies content.
pub open spec fn content_hash(data: Seq<u8>) -> Seq<char> {
    hex_of(sha256_of(data))
}

/// The hex-encoded SHA-256 hash of the given content.
pub fn calculate_hash(data: &Vec<u8>) -> (r: String)
    ensures
        r@ == content_hash(data@),
        r@.len() == 64,
{
    let digest = sha256(data.as_slice());
    let r = hex_encode(&digest);
    r
}

/// The hex-encoded SHA-256 hash of the first `limit` bytes of the given
/// content (of all of it, when it is shorter than `limit`).
pub fn calculate_partial_hash(data: &Vec<u8>, limit: u64) -> (r: String)
    ensures
        r@ == content_hash(data@.take(vstd::math::min(limit as int, data@.len() as int))),
        r@.len() == 64,
{
    let n: usize = if limit < data.len() as u64 {
        limit as usize
    } else {
        data.len()
    };
    let mut prefix: Vec<u8> = Vec::new();
    let mut i: usize = 0;
    while i < n
        invariant
            n <= data@.len(),
            i <= n,
            prefix@ == data@.take(i as int),
        decreases n - i,
    {
        prefix.push(data[i]);
        i = i + 1;
        assert(prefix@ =~= data@.take(i as int));
    }
    let digest = sha256(prefix.as_slice());
    proof {
        assert(prefix@ =~= data@.take(vstd::math::min(limit as int, data@.len() as int)));
    }
    hex_encode(&digest)
}

} // verus!
