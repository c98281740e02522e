//! One-way digests of credentials. A principal's national identifier and
//! phone number are never stored: what is stored, and compared at login, is
//! the SHA-256 digest of each, written in lower-case hexadecimal.

use sha2::Digest;
use vstd::prelude::*;
use vstd::string::StringExecFns;

verus! {

/// The SHA-256 digest of `data`, as `sha2` computes it.
pub uninterp spec fn sha256_digest(data: Seq<u8>) -> Seq<u8>;

/// Computes the SHA-256 digest of `data` through `sha2::Sha256::digest`.
/// The digest is a function of the data alone, which is what the name
/// [`sha256_digest`] stands for, and is 32 bytes long.
#[verifier::external_body]
fn sha256(data: &[u8]) -> (digest: Vec<u8>)
    ensures
        digest@ == sha256_digest(data@),
        digest@.len() == 32,
{
    sha2::Sha256::digest(data).to_vec()
}

/// The character of one hexadecimal digit, in lower case. Whatever is not a
/// digit below fifteen is written as fifteen.
pub open spec fn hex_char(v: int) -> char {
    if v == 0 {
        '0'
    } else if v == 1 {
        '1'
    } else if v == 2 {
        '2'
    } else if v == 3 {
        '3'
    } else if v == 4 {
        '4'
    } else if v == 5 {
        '5'
    } else if v == 6 {
        '6'
    } else if v == 7 {
        '7'
    } else if v == 8 {
        '8'
    } else if v == 9 {
        '9'
    } else if v == 10 {
        'a'
    } else if v == 11 {
        'b'
    } else if v == 12 {
        'c'
    } else if v == 13 {
        'd'
    } else if v == 14 {
        'e'
    } else {
        'f'
    }
}

/// The bytes written in lower-case hexadecimal, two characters a byte, the
/// high half first.
pub open spec fn hex_lower(bytes: Seq<u8>) -> Seq<char> {
    Seq::new(
        2 * bytes.len(),
        |i: int|
            if i % 2 == 0 {
                hex_char(bytes[i / 2] as int / 16)
            } else {
                hex_char(bytes[i / 2] as int % 16)
            },
    )
}

/// The stored digest of a credential: the SHA-256 digest of its UTF-8
/// bytes, in lower-case hexadecimal.
pub open spec fn credential_digest(credential: Seq<char>) -> Seq<char> {
    hex_lower(sha256_digest(vstd::utf8::encode_utf8(credential)))
}

/// The text of one hexadecimal digit: see [`hex_char`].
pub fn hex_str(v: u8) -> (text: &'static str)
    ensures
        text@ == seq![hex_char(v as int)],
{
    proof {
        reveal_strlit("0");
        reveal_strlit("1");
        reveal_strlit("2");
        reveal_strlit("3");
        reveal_strlit("4");
        reveal_strlit("5");
        reveal_strlit("6");
        reveal_strlit("7");
        reveal_strlit("8");
        reveal_strlit("9");
        reveal_strlit("a");
        reveal_strlit("b");
        reveal_strlit("c");
        reveal_strlit("d");
        reveal_strlit("e");
        reveal_strlit("f");
    }
    let text = match v {
        0 => "0",
        1 => "1",
        2 => "2",
        3 => "3",
        4 => "4",
        5 => "5",
        6 => "6",
        7 => "7",
        8 => "8",
        9 => "9",
        10 => "a",
        11 => "b",
        12 => "c",
        13 => "d",
        14 => "e",
        _ => "f",
    };
    assert(text@ =~= seq![hex_char(v as int)]);
    text
}

/// Writes the bytes in lower-case hexadecimal.
pub fn to_hex_lower(bytes: &[u8]) -> (text: String)
    ensures
        text@ == hex_lower(bytes@),
{
    let mut text = String::new();
    let mut i: usize = 0;
    while i < bytes.len()
        invariant
            i <= bytes.len(),
            text@ == hex_lower(bytes@.take(i as int)),
        decreases bytes.len() - i,
    {
        let byte = bytes[i];
        let ghost so_far = text@;
        text.append(hex_str(byte / 16));
        text.append(hex_str(byte % 16));
        assert(text@ =~= hex_lower(bytes@.take(i + 1))) by {
            assert(text@ == so_far + seq![hex_char(byte as int / 16)] + seq![
                hex_char(byte as int % 16),
            ]);
            assert forall|k: int| 0 <= k < 2 * (i + 1) implies text@[k] == hex_lower(
                bytes@.take(i + 1),
            )[k] by {
                if k < 2 * i {
                    assert(text@[k] == hex_lower(bytes@.take(i as int))[k]);
                    assert(bytes@.take(i as int)[k / 2] == bytes@.take(i + 1)[k / 2]);
                } else {
                    assert(k / 2 == i);
                    assert(bytes@.take(i + 1)[k / 2] == byte);
                }
            }
        }
        i += 1;
    }
    assert(bytes@.take(i as int) =~= bytes@);
    text
}

/// Digests a credential for storage and for comparison at login.
pub fn hash_data(data: &str) -> (digest: String)
    ensures
        digest@ == credential_digest(data@),
        digest@.len() == 64,
{
    let raw = sha256(data.as_bytes());
    to_hex_lower(raw.as_slice())
}

} // verus!
