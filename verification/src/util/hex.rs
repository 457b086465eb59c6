//! A field element written in hexadecimal, the way a transaction is
//! identified: `0x`, then the digits in lower case without leading zeros.

use crate::util::felt::Felt;
use vstd::prelude::*;
use vstd::string::*;

verus! {

/// The sixteen digits, each at the place of its value.
pub const HEX_DIGITS: &'static str = "0123456789abcdef";

/// The digit for a value below sixteen.
pub open spec fn hex_digit(value: int) -> char
    recommends
        0 <= value < 16,
{
    HEX_DIGITS@[value]
}

/// The `k`-th half byte of `bytes`, the high half of each byte first.
pub open spec fn nibble(bytes: Seq<u8>, k: int) -> int
    recommends
        0 <= k < 2 * bytes.len(),
{
    if k % 2 == 0 {
        bytes[k / 2] as int / 16
    } else {
        bytes[k / 2] as int % 16
    }
}

/// Two digits for each byte, leading zeros included.
pub open spec fn hex_digits(bytes: Seq<u8>) -> Seq<char> {
    Seq::new(2 * bytes.len(), |k: int| hex_digit(nibble(bytes, k)))
}

/// The digits without their leading zeros; the last digit always stays.
pub open spec fn strip_zeros(digits: Seq<char>) -> Seq<char>
    decreases digits.len(),
{
    if digits.len() > 1 && digits[0] == '0' {
        strip_zeros(digits.drop_first())
    } else {
        digits
    }
}

/// The number that big-endian `bytes` stand for, in hexadecimal: `0x0` for
/// zero, and no digit `0` in front of any other number.
pub open spec fn hex_text(bytes: Seq<u8>) -> Seq<char> {
    "0x"@ + strip_zeros(hex_digits(bytes))
}

/// Stripping stops at the first digit that is not `0`, or at the last.
pub proof fn lemma_strip_zeros(digits: Seq<char>, first: int)
    requires
        0 <= first < digits.len(),
        forall|j: int| 0 <= j < first ==> digits[j] == '0',
        digits[first] != '0' || first == digits.len() - 1,
    ensures
        strip_zeros(digits) == digits.subrange(first, digits.len() as int),
    decreases first,
{
    if first == 0 {
        assert(digits.subrange(0, digits.len() as int) =~= digits);
    } else {
        let rest = digits.drop_first();
        assert forall|j: int| 0 <= j < first - 1 implies rest[j] == '0' by {
            assert(rest[j] == digits[j + 1]);
        }
        lemma_strip_zeros(rest, first - 1);
        assert(rest.subrange(first - 1, rest.len() as int) =~= digits.subrange(
            first,
            digits.len() as int,
        ));
    }
}

/// Only the value zero is written as the digit `0`.
pub proof fn lemma_zero_digit(value: int)
    requires
        0 <= value < 16,
    ensures
        hex_digit(value) == '0' <==> value == 0,
{
    reveal_strlit("0123456789abcdef");
}

fn nibble_at(bytes: &[u8; 32], k: usize) -> (value: u8)
    requires
        k < 64,
    ensures
        value == nibble(bytes@, k as int),
        value < 16,
{
    let byte = bytes[k / 2];
    if k % 2 == 0 {
        byte / 16
    } else {
        byte % 16
    }
}

fn digit_text(value: u8) -> (text: &'static str)
    requires
        value < 16,
    ensures
        text@ == seq![hex_digit(value as int)],
{
    proof {
        reveal_strlit("0123456789abcdef");
        reveal_strlit("0");
        reveal_strlit("1");
        reveal_strlit("2");
        reveal_strlit("3");
        reveal_strlit("4");
        reveal_strlit("5");
        reveal_strlit("6");
        reveal_strlit("7");
        reveal_strlit("8");
        reveal_strlit("9");
        reveal_strlit("a");
        reveal_strlit("b");
        reveal_strlit("c");
        reveal_strlit("d");
        reveal_strlit("e");
        reveal_strlit("f");
    }
    let text = match value {
        0 => "0",
        1 => "1",
        2 => "2",
        3 => "3",
        4 => "4",
        5 => "5",
        6 => "6",
        7 => "7",
        8 => "8",
        9 => "9",
        10 => "a",
        11 => "b",
        12 => "c",
        13 => "d",
        14 => "e",
        _ => "f",
    };
    assert(text@ =~= seq![hex_digit(value as int)]);
    text
}

/// Writes a field element in hexadecimal.
pub fn hex_string(value: &Felt) -> (text: String)
    ensures
        text@ == hex_text(value@),
{
    let ghost digits = hex_digits(value@);
    let mut first: usize = 0;
    let mut found = false;
    while first < 63 && !found
        invariant
            first <= 63,
            digits == hex_digits(value@),
            digits.len() == 64,
            forall|j: int| 0 <= j < first ==> digits[j] == '0',
            found ==> digits[first as int] != '0',
        decreases 63 - first + if found { 0int } else { 1int },
    {
        let half = nibble_at(&value.bytes, first);
        proof {
            lemma_zero_digit(half as int);
        }
        if half != 0 {
            found = true;
        } else {
            first += 1;
        }
    }
    let mut text = "0x".to_owned();
    let mut k: usize = first;
    assert(digits.subrange(first as int, k as int) =~= Seq::<char>::empty());
    assert(text@ =~= "0x"@ + digits.subrange(first as int, k as int));
    while k < 64
        invariant
            first <= k <= 64,
            digits == hex_digits(value@),
            digits.len() == 64,
            text@ == "0x"@ + digits.subrange(first as int, k as int),
        decreases 64 - k,
    {
        let half = nibble_at(&value.bytes, k);
        text.append(digit_text(half));
        assert(digits.subrange(first as int, k + 1) =~= digits.subrange(first as int, k as int)
            + seq![digits[k as int]]);
        k += 1;
        assert(text@ =~= "0x"@ + digits.subrange(first as int, k as int));
    }
    proof {
        lemma_strip_zeros(digits, first as int);
    }
    text
}

} // verus!
