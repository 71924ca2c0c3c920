//! The hash of a counter: the SHA-256 digest of its decimal notation,
//! written as lowercase hexadecimal text.

use crate::decimal::{decimal_bytes, decimal_chars, push_decimal_bytes};
use sha2::{Digest, Sha256};
use vstd::prelude::*;

verus! {

/// The SHA-256 digest of `message`. The library does not define it: it is
/// whatever the `sha2` crate computes, which depends on the message alone.
pub uninterp spec fn sha256_digest(message: Seq<u8>) -> Seq<u8>;

/// The longest message, in bytes, whose length in bits still fits the 64-bit
/// length field that SHA-256 appends.
pub const SHA256_MESSAGE_LIMIT: u64 = 0x1fff_ffff_ffff_ffff;

/// Hashes `message` with `sha2::Sha256`: `Digest::new`, `Digest::update`
/// and `Digest::finalize`, the result copied into a vector.
///
/// Trusted: the result is the digest named by [`sha256_digest`], and it is
/// 32 bytes long, the output size that `sha2` declares for SHA-256. The
/// message must be short enough for its bit length to be counted in 64 bits,
/// which `sha2` computes without a check.
#[verifier::external_body]
fn sha256(message: &[u8]) -> (digest: Vec<u8>)
    requires
        message@.len() <= SHA256_MESSAGE_LIMIT,
    ensures
        digest@ == sha256_digest(message@),
        digest@.len() == 32,
{
    let mut hasher = Sha256::new();
    hasher.update(message);
    hasher.finalize().to_vec()
}

/// The lowercase hexadecimal digit for a value below sixteen.
pub open spec fn hex_digit_char(v: nat) -> char
    recommends
        v < 16,
{
    if v < 10 {
        (48 + v) as char
    } else {
        (87 + v) as char
    }
}

/// Lowercase hexadecimal text of `bytes`: two digits per byte, the high
/// half first.
pub open spec fn hex_chars(bytes: Seq<u8>) -> Seq<char> {
    Seq::new(
        2 * bytes.len(),
        |i: int|
            if i % 2 == 0 {
                hex_digit_char(bytes[i / 2] as nat / 16)
            } else {
                hex_digit_char(bytes[i / 2] as nat % 16)
            },
    )
}

/// The hash of the counter `n` as text: sixty-four hexadecimal digits.
pub open spec fn hash_chars(n: nat) -> Seq<char> {
    hex_chars(sha256_digest(decimal_bytes(n)))
}

/// One-character text for a single hexadecimal digit.
fn hex_digit_text(v: u8) -> (t: &'static str)
    requires
        v < 16,
    ensures
        t@ == seq![hex_digit_char(v as nat)],
{
    proof {
        reveal_strlit("0");
        reveal_strlit("1");
        reveal_strlit("2");
        reveal_strlit("3");
        reveal_strlit("4");
        reveal_strlit("5");
        reveal_strlit("6");
        reveal_strlit("7");
        reveal_strlit("8");
        reveal_strlit("9");
        reveal_strlit("a");
        reveal_strlit("b");
        reveal_strlit("c");
        reveal_strlit("d");
        reveal_strlit("e");
        reveal_strlit("f");
    }
    match v {
        0 => "0",
        1 => "1",
        2 => "2",
        3 => "3",
        4 => "4",
        5 => "5",
        6 => "6",
        7 => "7",
        8 => "8",
        9 => "9",
        10 => "a",
        11 => "b",
        12 => "c",
        13 => "d",
        14 => "e",
        _ => "f",
    }
}

/// Writes `bytes` as lowercase hexadecimal text.
pub fn hex_encode(bytes: &[u8]) -> (text: String)
    ensures
        text@ == hex_chars(bytes@),
{
    let mut text = String::new();
    let mut i: usize = 0;
    while i < bytes.len()
        invariant
            i <= bytes@.len(),
            text@ == hex_chars(bytes@.take(i as int)),
        decreases bytes@.len() - i,
    {
        let b = bytes[i];
        text.append(hex_digit_text(b / 16));
        text.append(hex_digit_text(b % 16));
        i += 1;
        assert(text@ =~= hex_chars(bytes@.take(i as int)));
    }
    assert(bytes@.take(i as int) =~= bytes@);
    text
}

/// Ten to the power `k`.
pub open spec fn ten_to(k: nat) -> nat
    decreases k,
{
    if k == 0 {
        1
    } else {
        10 * ten_to((k - 1) as nat)
    }
}

/// A number below ten to the `k` is written with at most `k` digits.
pub proof fn lemma_decimal_length(n: nat, k: nat)
    requires
        k >= 1,
        n < ten_to(k),
    ensures
        1 <= decimal_chars(n).len() <= k,
    decreases k,
{
    if n >= 10 {
        if k == 1 {
            assert(ten_to(1) == 10) by {
                reveal_with_fuel(ten_to, 2);
            }
        }
        lemma_decimal_length(n / 10, (k - 1) as nat);
    }
}

/// The hash of `input`: the SHA-256 digest of its decimal notation, in
/// lowercase hexadecimal.
pub fn generate_hash(input: u64) -> (hash: String)
    ensures
        hash@ == hash_chars(input as nat),
        hash@.len() == 64,
{
    let mut message: Vec<u8> = Vec::new();
    push_decimal_bytes(&mut message, input);
    proof {
        assert(ten_to(20) == 100_000_000_000_000_000_000nat) by {
            reveal_with_fuel(ten_to, 21);
        }
        lemma_decimal_length(input as nat, 20);
        assert(message@ =~= decimal_bytes(input as nat));
    }
    let digest = sha256(message.as_slice());
    hex_encode(digest.as_slice())
}

} // verus!
