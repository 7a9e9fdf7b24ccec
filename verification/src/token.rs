//! Random tokens: bytes from the operating system's random source, written
//! as lowercase hexadecimal digits.

use rand::{OsRng, Rng};
use vstd::prelude::*;

verus! {

/// The random source of the operating system, as `rand` offers it.
#[verifier::external_type_specification]
#[verifier::external_body]
pub struct ExOsRng(OsRng);

/// The lowercase hexadecimal digit for `n`, which is below 16.
pub open spec fn hex_digit(n: int) -> char {
    if n == 0 {
        '0'
    } else if n == 1 {
        '1'
    } else if n == 2 {
        '2'
    } else if n == 3 {
        '3'
    } else if n == 4 {
        '4'
    } else if n == 5 {
        '5'
    } else if n == 6 {
        '6'
    } else if n == 7 {
        '7'
    } else if n == 8 {
        '8'
    } else if n == 9 {
        '9'
    } else if n == 10 {
        'a'
    } else if n == 11 {
        'b'
    } else if n == 12 {
        'c'
    } else if n == 13 {
        'd'
    } else if n == 14 {
        'e'
    } else {
        'f'
    }
}

/// Whether a character is a lowercase hexadecimal digit.
pub open spec fn is_lower_hex(c: char) -> bool {
    exists|n: int| 0 <= n < 16 && c == #[trigger] hex_digit(n)
}

/// The hexadecimal notation of a sequence of bytes: two digits for each
/// byte, the high half first.
pub open spec fn hex_encoding(bytes: Seq<u8>) -> Seq<char> {
    Seq::new(
        2 * bytes.len(),
        |i: int|
            if i % 2 == 0 {
                hex_digit(bytes[i / 2] as int / 16)
            } else {
                hex_digit(bytes[i / 2] as int % 16)
            },
    )
}

/// Whether a text is a token of `n` bytes: twice as many characters, each
/// a lowercase hexadecimal digit.
pub open spec fn is_hex_token(s: Seq<char>, n: nat) -> bool {
    &&& s.len() == 2 * n
    &&& forall|i: int| 0 <= i < s.len() ==> is_lower_hex(#[trigger] s[i])
}

/// Whether a text is the hexadecimal notation of some `n` bytes.
pub open spec fn is_token(s: Seq<char>, n: nat) -> bool {
    exists|bytes: Seq<u8>| bytes.len() == n && s == #[trigger] hex_encoding(bytes)
}

/// The hexadecimal notation of `n` bytes has `2 * n` characters, each a
/// lowercase hexadecimal digit.
pub proof fn lemma_token_shape(s: Seq<char>, n: nat)
    requires
        is_token(s, n),
    ensures
        is_hex_token(s, n),
{
    let bytes = choose|bytes: Seq<u8>| bytes.len() == n && s == #[trigger] hex_encoding(bytes);
    lemma_hex_encoding_is_token(bytes);
}

/// Two digits are the same only where they stand for the same number.
pub proof fn lemma_hex_digit_injective(m: int, n: int)
    requires
        0 <= m < 16,
        0 <= n < 16,
        hex_digit(m) == hex_digit(n),
    ensures
        m == n,
{
}

/// Sequences of bytes that differ are written differently: from the
/// hexadecimal notation the bytes can be told.
pub proof fn lemma_hex_encoding_injective(a: Seq<u8>, b: Seq<u8>)
    requires
        hex_encoding(a) == hex_encoding(b),
    ensures
        a == b,
{
    assert(hex_encoding(a).len() == 2 * a.len());
    assert(hex_encoding(b).len() == 2 * b.len());
    assert forall|i: int| 0 <= i < a.len() implies a[i] == b[i] by {
        let x = a[i] as int;
        let y = b[i] as int;
        assert((2 * i) % 2 == 0 && (2 * i) / 2 == i);
        assert((2 * i + 1) % 2 == 1 && (2 * i + 1) / 2 == i);
        assert(hex_encoding(a)[2 * i] == hex_digit(x / 16));
        assert(hex_encoding(b)[2 * i] == hex_digit(y / 16));
        assert(hex_encoding(a)[2 * i + 1] == hex_digit(x % 16));
        assert(hex_encoding(b)[2 * i + 1] == hex_digit(y % 16));
        lemma_hex_digit_injective(x / 16, y / 16);
        lemma_hex_digit_injective(x % 16, y % 16);
    }
    assert(a =~= b);
}

/// The hexadecimal notation of `n` bytes is a token of `n` bytes.
pub proof fn lemma_hex_encoding_is_token(bytes: Seq<u8>)
    ensures
        is_hex_token(hex_encoding(bytes), bytes.len()),
{
    let s = hex_encoding(bytes);
    assert forall|i: int| 0 <= i < s.len() implies is_lower_hex(#[trigger] s[i]) by {
        let b = bytes[i / 2] as int;
        if i % 2 == 0 {
            assert(0 <= b / 16 < 16);
            assert(s[i] == hex_digit(b / 16));
        } else {
            assert(0 <= b % 16 < 16);
            assert(s[i] == hex_digit(b % 16));
        }
    }
}

/// Calls `rand::OsRng::new`, which opens the random source of the operating
/// system. It may fail, and nothing is claimed of the source that it gives.
#[verifier::external_body]
pub(crate) fn open_os_rng() -> (rng: Option<OsRng>) {
    OsRng::new().ok()
}

/// Calls `rand::Rng::fill_bytes` on a fresh buffer of `len` bytes. The
/// bytes are whatever the operating system gives: the contract claims
/// their number and nothing else. Should the operating system refuse to
/// give any, `rand` aborts the program; no argument brings that about.
#[verifier::external_body]
pub(crate) fn fill_random(rng: &mut OsRng, len: usize) -> (bytes: Vec<u8>)
    ensures
        bytes@.len() == len,
{
    let mut bytes = vec![0u8; len];
    rng.fill_bytes(&mut bytes[..]);
    bytes
}

/// Calls `hex::encode`, which writes each byte as two lowercase
/// hexadecimal digits, the high half first, in the order of the bytes.
#[verifier::external_body]
pub(crate) fn hex_encode(bytes: &Vec<u8>) -> (s: String)
    requires
        2 * bytes@.len() <= isize::MAX,
    ensures
        s@ == hex_encoding(bytes@),
{
    hex::encode(bytes)
}

} // verus!
