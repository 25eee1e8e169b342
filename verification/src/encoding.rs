//! Bytes and text: little-endian bytes of numbers, hexadecimal and decimal
//! digits, and the digest that identifies a piece of data.

use vstd::prelude::*;
use vstd::string::StringExecFns;
use sha2::{Digest, Sha256};

verus! {

/// The number of bytes of a SHA-256 digest.
pub const DIGEST_LENGTH: usize = 32;

/// Byte `i` of `value`, counted from the least significant.
pub open spec fn le_byte(value: u64, i: int) -> u8 {
    ((value >> ((8 * i) as u64)) & 0xff) as u8
}

/// The eight bytes of `value`, least significant first.
pub open spec fn le_bytes_model(value: u64) -> Seq<u8> {
    Seq::new(8, |i: int| le_byte(value, i))
}

/// The four bytes of `value`, least significant first.
pub open spec fn le_bytes_u32_model(value: u32) -> Seq<u8> {
    Seq::new(4, |i: int| le_byte(value as u64, i))
}

/// The bytes of `value`, least significant first.
pub fn le_bytes(value: u64) -> (bytes: [u8; 8])
    ensures
        bytes@ == le_bytes_model(value),
        forall|i: int| 0 <= i < 8 ==> bytes[i] == le_byte(value, i),
{
    let mut bytes = [0u8; 8];
    let mut i: usize = 0;
    while i < 8
        invariant
            i <= 8,
            forall|j: int| 0 <= j < i ==> bytes[j] == le_byte(value, j),
        decreases 8 - i,
    {
        let shift: u64 = 8 * (i as u64);
        let low: u64 = (value >> shift) & 0xff;
        assert(low <= 0xff) by (bit_vector)
            requires
                low == (value >> shift) & 0xff,
        ;
        bytes[i] = low as u8;
        i += 1;
    }
    assert(bytes@ =~= le_bytes_model(value));
    bytes
}

/// The character that stands for a digit below sixteen, in lower case: the
/// digits `0` to `9` from code 48 on, the letters `a` to `f` from code 97 on.
pub open spec fn hex_digit_model(digit: int) -> char {
    if digit < 10 {
        ((48 + digit) as u8) as char
    } else {
        ((87 + digit) as u8) as char
    }
}

/// The two lower-case hexadecimal digits of every byte, in order.
pub open spec fn hex_model(bytes: Seq<u8>) -> Seq<char> {
    Seq::new(
        2 * bytes.len(),
        |i: int|
            if i % 2 == 0 {
                hex_digit_model(bytes[i / 2] as int / 16)
            } else {
                hex_digit_model(bytes[i / 2] as int % 16)
            },
    )
}

/// The digits of `n` to the base sixteen, in lower case, without leading
/// zeros; a single zero for zero.
pub open spec fn lower_hex_model(n: nat) -> Seq<char>
    decreases n,
{
    if n < 16 {
        seq![hex_digit_model(n as int)]
    } else {
        lower_hex_model(n / 16).push(hex_digit_model((n % 16) as int))
    }
}

/// The decimal digits of `n`, without leading zeros; a single zero for zero.
pub open spec fn decimal_model(n: nat) -> Seq<char>
    decreases n,
{
    if n < 10 {
        seq![hex_digit_model(n as int)]
    } else {
        decimal_model(n / 10).push(hex_digit_model((n % 10) as int))
    }
}

/// The SHA-256 digest of a sequence of bytes.
pub uninterp spec fn sha256_model(data: Seq<u8>) -> Seq<u8>;

/// The SHA-256 digest of `data`, through sha2's `Sha256::digest`, which feeds
/// the data to a fresh hasher and finalizes it. The digest depends on the data
/// alone; it is named, not spelled out. Its length is that of the hasher's
/// output, 32 bytes.
#[verifier::external_body]
pub(crate) fn sha256(data: &[u8]) -> (digest: Vec<u8>)
    ensures
        digest@ == sha256_model(data@),
        digest@.len() == DIGEST_LENGTH,
{
    Sha256::digest(data).to_vec()
}

/// `bytes` in hexadecimal, through hex's `encode`, which writes every byte as
/// its two digits from the table `0123456789abcdef`, high digit first.
#[verifier::external_body]
pub(crate) fn hex_encode(bytes: &[u8]) -> (text: String)
    ensures
        text@ == hex_model(bytes@),
{
    hex::encode(bytes)
}

/// Appends `c` to `text`, through `String::push`.
#[verifier::external_body]
pub(crate) fn push_char(text: &mut String, c: char)
    ensures
        final(text)@ == old(text)@.push(c),
{
    text.push(c);
}

/// The character that stands for a digit below sixteen, in lower case.
pub fn hex_digit(digit: u8) -> (c: char)
    requires
        digit < 16,
    ensures
        c == hex_digit_model(digit as int),
{
    if digit < 10 {
        (48u8 + digit) as char
    } else {
        (87u8 + digit) as char
    }
}

/// `n` in lower-case hexadecimal digits, without leading zeros.
pub fn lower_hex(n: u64) -> (text: String)
    ensures
        text@ == lower_hex_model(n as nat),
{
    let mut digits: Vec<u8> = Vec::new();
    let mut rest = n;
    while rest >= 16
        invariant
            forall|k: int| 0 <= k < digits@.len() ==> digits@[k] < 16,
            lower_hex_model(n as nat) == lower_hex_model(rest as nat) + Seq::new(
                digits@.len(),
                |k: int| hex_digit_model(digits@[digits@.len() - 1 - k] as int),
            ),
        decreases rest,
    {
        let ghost before = digits@;
        digits.push((rest % 16) as u8);
        proof {
            let tail_before = Seq::new(
                before.len(),
                |k: int| hex_digit_model(before[before.len() - 1 - k] as int),
            );
            let tail_after = Seq::new(
                digits@.len(),
                |k: int| hex_digit_model(digits@[digits@.len() - 1 - k] as int),
            );
            assert(tail_after =~= seq![hex_digit_model((rest % 16) as int)] + tail_before);
            assert(lower_hex_model(rest as nat) + tail_before =~= lower_hex_model(
                (rest / 16) as nat,
            ) + tail_after);
        }
        rest = rest / 16;
    }
    let mut text = String::new();
    push_char(&mut text, hex_digit(rest as u8));
    let count = digits.len();
    let mut i: usize = 0;
    while i < count
        invariant
            i <= count,
            count == digits@.len(),
            forall|k: int| 0 <= k < digits@.len() ==> digits@[k] < 16,
            text@ == lower_hex_model(rest as nat) + Seq::new(
                i as nat,
                |k: int| hex_digit_model(digits@[digits@.len() - 1 - k] as int),
            ),
        decreases count - i,
    {
        let ghost before = text@;
        push_char(&mut text, hex_digit(digits[count - 1 - i]));
        proof {
            assert(text@ =~= lower_hex_model(rest as nat) + Seq::new(
                (i + 1) as nat,
                |k: int| hex_digit_model(digits@[digits@.len() - 1 - k] as int),
            ));
        }
        i += 1;
    }
    text
}

/// `n` in decimal digits, without leading zeros, for numbers of up to 128 bits.
pub fn decimal_wide(n: u128) -> (text: String)
    ensures
        text@ == decimal_model(n as nat),
{
    let mut digits: Vec<u8> = Vec::new();
    let mut rest = n;
    while rest >= 10
        invariant
            forall|k: int| 0 <= k < digits@.len() ==> digits@[k] < 10,
            decimal_model(n as nat) == decimal_model(rest as nat) + Seq::new(
                digits@.len(),
                |k: int| hex_digit_model(digits@[digits@.len() - 1 - k] as int),
            ),
        decreases rest,
    {
        let ghost before = digits@;
        digits.push((rest % 10) as u8);
        proof {
            let tail_before = Seq::new(
                before.len(),
                |k: int| hex_digit_model(before[before.len() - 1 - k] as int),
            );
            let tail_after = Seq::new(
                digits@.len(),
                |k: int| hex_digit_model(digits@[digits@.len() - 1 - k] as int),
            );
            assert(tail_after =~= seq![hex_digit_model((rest % 10) as int)] + tail_before);
            assert(decimal_model(rest as nat) + tail_before =~= decimal_model((rest / 10) as nat)
                + tail_after);
        }
        rest = rest / 10;
    }
    let mut text = String::new();
    push_char(&mut text, hex_digit(rest as u8));
    let count = digits.len();
    let mut i: usize = 0;
    while i < count
        invariant
            i <= count,
            count == digits@.len(),
            forall|k: int| 0 <= k < digits@.len() ==> digits@[k] < 10,
            text@ == decimal_model(rest as nat) + Seq::new(
                i as nat,
                |k: int| hex_digit_model(digits@[digits@.len() - 1 - k] as int),
            ),
        decreases count - i,
    {
        push_char(&mut text, hex_digit(digits[count - 1 - i]));
        proof {
            assert(text@ =~= decimal_model(rest as nat) + Seq::new(
                (i + 1) as nat,
                |k: int| hex_digit_model(digits@[digits@.len() - 1 - k] as int),
            ));
        }
        i += 1;
    }
    text
}

/// `n` in decimal digits, without leading zeros.
pub fn decimal(n: u64) -> (text: String)
    ensures
        text@ == decimal_model(n as nat),
{
    decimal_wide(n as u128)
}

/// Whether two strings hold the same text.
pub fn same_text(a: &str, b: &str) -> (same: bool)
    ensures
        same == (a@ == b@),
{
    let a_owned = String::from_str(a);
    let b_owned = String::from_str(b);
    a_owned == b_owned
}

/// Appends the bytes of `part` to `data`.
pub fn append_bytes(data: &mut Vec<u8>, part: &[u8])
    ensures
        final(data)@ == old(data)@ + part@,
{
    let mut i: usize = 0;
    while i < part.len()
        invariant
            i <= part@.len(),
            data@ == old(data)@ + part@.take(i as int),
        decreases part@.len() - i,
    {
        data.push(part[i]);
        proof {
            assert(part@.take(i + 1) =~= part@.take(i as int).push(part@[i as int]));
            assert(data@ =~= old(data)@ + part@.take(i + 1));
        }
        i += 1;
    }
    proof {
        assert(part@.take(part@.len() as int) =~= part@);
    }
}

} // verus!
