//! Checksum verification: MD5 digest of a file's contents, rendered as
//! lowercase hex and compared to the declared checksum string.

use vstd::prelude::*;
use md5::Digest;

verus! {

/// Relies on std's String::push: appends the given char to the end of the
/// string. vstd gives this method no specification of its own.
pub assume_specification[ String::push ](s: &mut String, c: char)
    ensures
        final(s)@ == old(s)@.push(c),
;

/// Outcome of reading a local file's entire contents.
pub enum FileRead {
    /// The read failed partway through; no digest can be computed.
    Failed,
    /// The complete contents of the file.
    Content(Vec<u8>),
}

/// The MD5 digest (16 bytes) of a byte sequence.
pub uninterp spec fn md5_of(bytes: Seq<u8>) -> Seq<u8>;

/// Relies on the md5 library (package md-5): `Md5` implements the `Digest`
/// interface, its output is 16 bytes and depends on the input bytes alone.
#[verifier::external_body]
fn md5_digest(bytes: &[u8]) -> (r: Vec<u8>)
    ensures
        r@ == md5_of(bytes@),
        r@.len() == 16,
{
    let mut hasher = md5::Md5::new();
    hasher.update(bytes);
    hasher.finalize().to_vec()
}

/// The lowercase hex character for a nibble value.
pub open spec fn hex_digit(n: u8) -> char
    recommends
        n < 16,
{
    if n == 0 {
        '0'
    } else if n == 1 {
        '1'
    } else if n == 2 {
        '2'
    } else if n == 3 {
        '3'
    } else if n == 4 {
        '4'
    } else if n == 5 {
        '5'
    } else if n == 6 {
        '6'
    } else if n == 7 {
        '7'
    } else if n == 8 {
        '8'
    } else if n == 9 {
        '9'
    } else if n == 10 {
        'a'
    } else if n == 11 {
        'b'
    } else if n == 12 {
        'c'
    } else if n == 13 {
        'd'
    } else if n == 14 {
        'e'
    } else {
        'f'
    }
}

/// Lowercase hex rendering of a byte sequence: two digits per byte, high
/// nibble first.
pub open spec fn hex_lower_of(bytes: Seq<u8>) -> Seq<char>
    decreases bytes.len(),
{
    if bytes.len() == 0 {
        Seq::empty()
    } else {
        seq![hex_digit(bytes[0] / 16), hex_digit(bytes[0] % 16)] + hex_lower_of(bytes.drop_first())
    }
}

/// The declared form of a file's digest: its MD5 digest in lowercase hex.
pub open spec fn md5_hex_of(bytes: Seq<u8>) -> Seq<char> {
    hex_lower_of(md5_of(bytes))
}

fn hex_digit_char(n: u8) -> (c: char)
    requires
        n < 16,
    ensures
        c == hex_digit(n),
{
    if n == 0 {
        '0'
    } else if n == 1 {
        '1'
    } else if n == 2 {
        '2'
    } else if n == 3 {
        '3'
    } else if n == 4 {
        '4'
    } else if n == 5 {
        '5'
    } else if n == 6 {
        '6'
    } else if n == 7 {
        '7'
    } else if n == 8 {
        '8'
    } else if n == 9 {
        '9'
    } else if n == 10 {
        'a'
    } else if n == 11 {
        'b'
    } else if n == 12 {
        'c'
    } else if n == 13 {
        'd'
    } else if n == 14 {
        'e'
    } else {
        'f'
    }
}

/// Renders bytes as lowercase hex, two digits per byte.
pub fn to_hex_lower(bytes: &[u8]) -> (r: String)
    ensures
        r@ == hex_lower_of(bytes@),
{
    let mut r = String::new();
    let n = bytes.len();
    let mut i: usize = 0;
    proof {
        assert(bytes@.skip(0) =~= bytes@);
    }
    while i < n
        invariant
            i <= n,
            n == bytes@.len(),
            hex_lower_of(bytes@) =~= r@ + hex_lower_of(bytes@.skip(i as int)),
            r@.len() == 2 * i,
        decreases n - i,
    {
        let b = bytes[i];
        assert(b / 16 < 16 && b % 16 < 16);
        let hi = hex_digit_char(b / 16);
        let lo = hex_digit_char(b % 16);
        r.push(hi);
        r.push(lo);
        proof {
            assert(bytes@.skip(i as int)[0] == bytes@[i as int]);
            assert(bytes@.skip(i as int).drop_first() =~= bytes@.skip(i + 1));
            assert(hex_lower_of(bytes@) =~= r@ + hex_lower_of(bytes@.skip(i + 1)));
        }
        i = i + 1;
    }
    proof {
        assert(bytes@.skip(n as int) =~= Seq::<u8>::empty());
        assert(r@ + Seq::<char>::empty() =~= r@);
    }
    r
}

/// Whether a file read yielded content whose MD5 digest, in lowercase hex,
/// equals the declared checksum exactly. A failed read never matches.
pub open spec fn read_matches(r: FileRead, checksum: Seq<char>) -> bool {
    r matches FileRead::Content(c) && md5_hex_of(c@) == checksum
}

/// Computes the MD5 digest of the file's contents and compares its lowercase
/// hex rendering to `checksum`, case-sensitively. A failed read yields `false`
/// (fail closed).
pub fn verify_checksum(file: &FileRead, checksum: &str) -> (ok: bool)
    ensures
        ok == read_matches(*file, checksum@),
{
    match file {
        FileRead::Failed => false,
        FileRead::Content(bytes) => {
            let digest = md5_digest(bytes.as_slice());
            let hex = to_hex_lower(digest.as_slice());
            let expected: String = checksum.to_owned();
            hex == expected
        },
    }
}

} // verus!
