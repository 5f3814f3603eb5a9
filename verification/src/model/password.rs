//! Hashes a plaintext secret to the digest under which an identity stores it.

use sha2::Digest;
use vstd::prelude::*;
use vstd::string::*;

verus! {

/// The SHA-256 digest of `data`.
pub uninterp spec fn sha256(data: Seq<u8>) -> Seq<u8>;

/// Calls `Sha256::digest` of the sha2 crate, which hashes `data` in one go:
/// the 32 bytes of its SHA-256 digest.
#[verifier::external_body]
fn sha256_digest(data: &[u8]) -> (r: Vec<u8>)
    ensures
        r@ == sha256(data@),
        r@.len() == 32,
{
    sha2::Sha256::digest(data).to_vec()
}

/// The sixteen digits of upper-case hexadecimal, in their order.
pub open spec fn upper_hex_digits() -> Seq<char> {
    seq!['0', '1', '2', '3', '4', '5', '6', '7', '8', '9', 'A', 'B', 'C', 'D', 'E', 'F']
}

/// The character at position `i` of the upper-case hexadecimal form of
/// `bytes`: the high half of a byte comes before its low half.
pub open spec fn upper_hex_char(bytes: Seq<u8>, i: int) -> char {
    if i % 2 == 0 {
        upper_hex_digits()[bytes[i / 2] as int / 16]
    } else {
        upper_hex_digits()[bytes[i / 2] as int % 16]
    }
}

/// The upper-case hexadecimal form of `bytes`, two digits a byte.
pub open spec fn upper_hex(bytes: Seq<u8>) -> Seq<char> {
    Seq::new(2 * bytes.len(), |i: int| upper_hex_char(bytes, i))
}

/// The digit of upper-case hexadecimal for a value below sixteen.
fn upper_hex_digit(value: u8) -> (r: &'static str)
    requires
        value < 16,
    ensures
        r@ == seq![upper_hex_digits()[value as int]],
{
    proof {
        reveal_strlit("0");
        reveal_strlit("1");
        reveal_strlit("2");
        reveal_strlit("3");
        reveal_strlit("4");
        reveal_strlit("5");
        reveal_strlit("6");
        reveal_strlit("7");
        reveal_strlit("8");
        reveal_strlit("9");
        reveal_strlit("A");
        reveal_strlit("B");
        reveal_strlit("C");
        reveal_strlit("D");
        reveal_strlit("E");
        reveal_strlit("F");
    }
    let r = match value {
        0 => "0",
        1 => "1",
        2 => "2",
        3 => "3",
        4 => "4",
        5 => "5",
        6 => "6",
        7 => "7",
        8 => "8",
        9 => "9",
        10 => "A",
        11 => "B",
        12 => "C",
        13 => "D",
        14 => "E",
        _ => "F",
    };
    assert(r@ =~= seq![upper_hex_digits()[value as int]]);
    r
}

/// Writes bytes in upper-case hexadecimal.
pub fn to_upper_hex(bytes: &[u8]) -> (r: String)
    ensures
        r@ == upper_hex(bytes@),
{
    let mut out = String::new();
    let mut i: usize = 0;
    while i < bytes.len()
        invariant
            i <= bytes@.len(),
            out@.len() == 2 * i,
            forall|k: int| 0 <= k < 2 * i ==> out@[k] == upper_hex_char(bytes@, k),
        decreases bytes@.len() - i,
    {
        let byte = bytes[i];
        let ghost before = out@;
        out.append(upper_hex_digit(byte / 16));
        out.append(upper_hex_digit(byte % 16));
        proof {
            assert(out@ =~= before.push(upper_hex_digits()[byte as int / 16]).push(
                upper_hex_digits()[byte as int % 16],
            ));
            assert forall|k: int| 0 <= k < 2 * (i + 1) implies out@[k] == upper_hex_char(
                bytes@,
                k,
            ) by {
                if k < 2 * i {
                    assert(out@[k] == before[k]);
                }
            }
        }
        i += 1;
    }
    assert(out@ =~= upper_hex(bytes@));
    out
}

pub trait PasswordHasher {
    /// The digest of a secret: a function of the secret alone. A hasher
    /// that does not say which leaves it open.
    open spec fn digest(&self, secret: Seq<char>) -> Seq<char> {
        arbitrary()
    }

    /// Calculates the digest of a string.
    fn hash(&self, some_string: &str) -> (r: String)
        ensures
            r@ == self.digest(some_string@),
    ;
}

/// Hashes with SHA-256 and writes the digest in upper-case hexadecimal.
#[derive(Default)]
pub struct SimpleHasher;

impl PasswordHasher for SimpleHasher {
    open spec fn digest(&self, secret: Seq<char>) -> Seq<char> {
        upper_hex(sha256(vstd::utf8::encode_utf8(secret)))
    }

    fn hash(&self, some_string: &str) -> (r: String)
        ensures
            r@.len() == 64,
    {
        let bytes = sha256_digest(some_string.as_bytes());
        to_upper_hex(bytes.as_slice())
    }
}

} // verus!
