//! Positional notation: the decimal and hexadecimal digits of a number.

use vstd::prelude::*;

use crate::message::{
    byte_len, lemma_byte_len_ascii, lemma_byte_len_concat, Message, MESSAGE_CAPACITY,
};

verus! {

/// The digit of a value below 16, with lower-case letters.
pub open spec fn digit(d: nat) -> char {
    if d < 10 {
        (0x30 + d) as char
    } else {
        (0x61 + d - 10) as char
    }
}

/// The digit of a value below 16, with upper-case letters.
pub open spec fn upper_digit(d: nat) -> char {
    if d < 10 {
        (0x30 + d) as char
    } else {
        (0x41 + d - 10) as char
    }
}

/// The decimal digits of `n`, without leading zeros.
pub open spec fn decimal(n: nat) -> Seq<char>
    decreases n,
{
    if n < 10 {
        seq![digit(n)]
    } else {
        decimal(n / 10).push(digit(n % 10))
    }
}

/// The lower-case hexadecimal digits of `n`, without leading zeros.
pub open spec fn hexadecimal(n: nat) -> Seq<char>
    decreases n,
{
    if n < 16 {
        seq![digit(n)]
    } else {
        hexadecimal(n / 16).push(digit(n % 16))
    }
}

/// The last `width` upper-case hexadecimal digits of `n`, with leading zeros.
pub open spec fn padded_hexadecimal(n: nat, width: nat) -> Seq<char>
    decreases width,
{
    if width == 0 {
        Seq::empty()
    } else {
        padded_hexadecimal(n / 16, (width - 1) as nat).push(upper_digit(n % 16))
    }
}

/// The number that a row of decimal digits stands for.
pub open spec fn decimal_value(digits: Seq<char>) -> nat
    decreases digits.len(),
{
    if digits.len() == 0 {
        0
    } else {
        10 * decimal_value(digits.drop_last()) + (digits.last() as nat - 0x30) as nat
    }
}

/// The value of a hexadecimal digit, in lower or upper case.
pub open spec fn hexadecimal_digit_value(c: char) -> nat {
    if '0' as nat <= c as nat && c as nat <= '9' as nat {
        (c as nat - '0' as nat) as nat
    } else if 'a' as nat <= c as nat && c as nat <= 'f' as nat {
        (10 + c as nat - 'a' as nat) as nat
    } else {
        (10 + c as nat - 'A' as nat) as nat
    }
}

/// The number that a row of hexadecimal digits stands for.
pub open spec fn hexadecimal_value(digits: Seq<char>) -> nat
    decreases digits.len(),
{
    if digits.len() == 0 {
        0
    } else {
        16 * hexadecimal_value(digits.drop_last()) + hexadecimal_digit_value(digits.last())
    }
}

/// One of the characters `0` to `9`.
pub open spec fn is_decimal_digit(c: char) -> bool {
    '0' as nat <= c as nat && c as nat <= '9' as nat
}

/// One of the characters `0` to `9` and `a` to `f`.
pub open spec fn is_lower_hexadecimal_digit(c: char) -> bool {
    is_decimal_digit(c) || ('a' as nat <= c as nat && c as nat <= 'f' as nat)
}

/// One of the characters `0` to `9` and `A` to `F`.
pub open spec fn is_upper_hexadecimal_digit(c: char) -> bool {
    is_decimal_digit(c) || ('A' as nat <= c as nat && c as nat <= 'F' as nat)
}

/// The power of sixteen.
pub open spec fn power_of_16(exponent: nat) -> nat
    decreases exponent,
{
    if exponent == 0 {
        1
    } else {
        16 * power_of_16((exponent - 1) as nat)
    }
}

/// The decimal digits of a number stand for that number.
pub proof fn decimal_reads_back(n: nat)
    ensures
        decimal_value(decimal(n)) == n,
    decreases n,
{
    reveal_with_fuel(decimal_value, 2);
    if n >= 10 {
        decimal_reads_back(n / 10);
        assert(decimal(n).drop_last() =~= decimal(n / 10));
    } else {
        assert(decimal(n).drop_last() =~= Seq::<char>::empty());
    }
}

/// Decimal notation holds digits only, at least one, and no leading zero but in zero
/// itself.
pub proof fn decimal_is_canonical(n: nat)
    ensures
        decimal(n).len() >= 1,
        forall|i: int| 0 <= i < decimal(n).len() ==> is_decimal_digit(#[trigger] decimal(n)[i]),
        n > 0 ==> decimal(n)[0] != '0',
        n == 0 ==> decimal(n) == seq!['0'],
    decreases n,
{
    if n >= 10 {
        decimal_is_canonical(n / 10);
        let shorter = decimal(n / 10);
        assert forall|i: int| 0 <= i < decimal(n).len() implies is_decimal_digit(
            #[trigger] decimal(n)[i],
        ) by {
            if i < shorter.len() {
                assert(decimal(n)[i] == shorter[i]);
            }
        }
        assert(decimal(n)[0] == shorter[0]);
    }
}

/// The hexadecimal digits of a number stand for that number.
pub proof fn hexadecimal_reads_back(n: nat)
    ensures
        hexadecimal_value(hexadecimal(n)) == n,
    decreases n,
{
    reveal_with_fuel(hexadecimal_value, 2);
    if n >= 16 {
        hexadecimal_reads_back(n / 16);
        assert(hexadecimal(n).drop_last() =~= hexadecimal(n / 16));
    } else {
        assert(hexadecimal(n).drop_last() =~= Seq::<char>::empty());
    }
}

/// Hexadecimal notation holds lower-case digits only, at least one, and no leading
/// zero but in zero itself.
pub proof fn hexadecimal_is_canonical(n: nat)
    ensures
        hexadecimal(n).len() >= 1,
        forall|i: int|
            0 <= i < hexadecimal(n).len() ==> is_lower_hexadecimal_digit(
                #[trigger] hexadecimal(n)[i],
            ),
        n > 0 ==> hexadecimal(n)[0] != '0',
        n == 0 ==> hexadecimal(n) == seq!['0'],
    decreases n,
{
    if n >= 16 {
        hexadecimal_is_canonical(n / 16);
        let shorter = hexadecimal(n / 16);
        assert forall|i: int|
            0 <= i < hexadecimal(n).len() implies is_lower_hexadecimal_digit(
            #[trigger] hexadecimal(n)[i],
        ) by {
            if i < shorter.len() {
                assert(hexadecimal(n)[i] == shorter[i]);
            }
        }
        assert(hexadecimal(n)[0] == shorter[0]);
    }
}

/// The padded digits of a number that fits in them stand for that number, and are
/// upper-case.
pub proof fn padded_hexadecimal_reads_back(n: nat, width: nat)
    requires
        n < power_of_16(width),
    ensures
        hexadecimal_value(padded_hexadecimal(n, width)) == n,
        forall|i: int|
            0 <= i < padded_hexadecimal(n, width).len() ==> is_upper_hexadecimal_digit(
                #[trigger] padded_hexadecimal(n, width)[i],
            ),
    decreases width,
{
    if width > 0 {
        let shorter = padded_hexadecimal(n / 16, (width - 1) as nat);
        let digits = padded_hexadecimal(n, width);
        padded_hexadecimal_reads_back(n / 16, (width - 1) as nat);
        assert(digits.drop_last() =~= shorter);
        assert forall|i: int| 0 <= i < digits.len() implies is_upper_hexadecimal_digit(
            #[trigger] digits[i],
        ) by {
            if i < shorter.len() {
                assert(digits[i] == shorter[i]);
            }
        }
    }
}

/// Two numbers of at most `width` hexadecimal digits with the same padded digits
/// are the same number.
pub proof fn padded_hexadecimal_is_injective(a: nat, b: nat, width: nat)
    requires
        a < power_of_16(width),
        b < power_of_16(width),
        padded_hexadecimal(a, width) == padded_hexadecimal(b, width),
    ensures
        a == b,
    decreases width,
{
    if width > 0 {
        let shorter = (width - 1) as nat;
        let da = padded_hexadecimal(a, width);
        let db = padded_hexadecimal(b, width);
        assert(da.drop_last() =~= padded_hexadecimal(a / 16, shorter));
        assert(db.drop_last() =~= padded_hexadecimal(b / 16, shorter));
        assert(da.last() == db.last());
        padded_hexadecimal_is_injective(a / 16, b / 16, shorter);
    }
}

/// Padding gives as many digits as asked for.
pub proof fn padded_hexadecimal_has_width(n: nat, width: nat)
    ensures
        padded_hexadecimal(n, width).len() == width,
    decreases width,
{
    if width > 0 {
        padded_hexadecimal_has_width(n / 16, (width - 1) as nat);
    }
}

/// Decimal digits are ASCII.
pub(crate) proof fn lemma_decimal_ascii(n: nat)
    ensures
        forall|i: int| 0 <= i < decimal(n).len() ==> (#[trigger] decimal(n)[i] as u32) < 0x80,
    decreases n,
{
    if n >= 10 {
        lemma_decimal_ascii(n / 10);
        let shorter = decimal(n / 10);
        assert forall|i: int| 0 <= i < decimal(n).len() implies (#[trigger] decimal(n)[i] as u32)
            < 0x80 by {
            if i < shorter.len() {
                assert(decimal(n)[i] == shorter[i]);
            }
        }
    }
}

/// The digit of `d` as a text of one character.
pub(crate) fn digit_str(d: u64) -> (text: &'static str)
    requires
        d < 16,
    ensures
        text@ == seq![digit(d as nat)],
{
    proof {
        reveal_strlit("0");
        reveal_strlit("1");
        reveal_strlit("2");
        reveal_strlit("3");
        reveal_strlit("4");
        reveal_strlit("5");
        reveal_strlit("6");
        reveal_strlit("7");
        reveal_strlit("8");
        reveal_strlit("9");
        reveal_strlit("a");
        reveal_strlit("b");
        reveal_strlit("c");
        reveal_strlit("d");
        reveal_strlit("e");
        reveal_strlit("f");
    }
    match d {
        0 => "0",
        1 => "1",
        2 => "2",
        3 => "3",
        4 => "4",
        5 => "5",
        6 => "6",
        7 => "7",
        8 => "8",
        9 => "9",
        10 => "a",
        11 => "b",
        12 => "c",
        13 => "d",
        14 => "e",
        _ => "f",
    }
}

/// A number below a thousand million has at most nine decimal digits.
pub(crate) proof fn lemma_decimal_len(n: nat)
    requires
        n < 1_000_000_000,
    ensures
        decimal(n).len() <= 9,
        n < 1_000 ==> decimal(n).len() <= 3,
        n < 100_000 ==> decimal(n).len() <= 5,
{
    reveal_with_fuel(decimal, 9);
}

/// Appends the decimal digits of `n` to a message that has room for them.
pub(crate) fn push_decimal(message: &mut Message, n: u64)
    requires
        byte_len(old(message)@) + decimal(n as nat).len() <= MESSAGE_CAPACITY,
    ensures
        final(message)@ == old(message)@ + decimal(n as nat),
    decreases n,
{
    proof {
        lemma_decimal_ascii(n as nat);
        lemma_byte_len_ascii(decimal(n as nat));
        lemma_byte_len_concat(message@, decimal(n as nat));
    }
    if n < 10 {
        message.push_str(digit_str(n));
    } else {
        let ghost start = message@;
        push_decimal(message, n / 10);
        assert(message@ + seq![digit((n % 10) as nat)] =~= start + decimal(n as nat));
        message.push_str(digit_str(n % 10));
    }
}

/// Hexadecimal digits are ASCII.
pub(crate) proof fn lemma_hexadecimal_ascii(n: nat)
    ensures
        forall|i: int|
            0 <= i < hexadecimal(n).len() ==> (#[trigger] hexadecimal(n)[i] as u32) < 0x80,
    decreases n,
{
    if n >= 16 {
        lemma_hexadecimal_ascii(n / 16);
        let shorter = hexadecimal(n / 16);
        assert forall|i: int| 0 <= i < hexadecimal(n).len() implies (#[trigger] hexadecimal(
            n,
        )[i] as u32) < 0x80 by {
            if i < shorter.len() {
                assert(hexadecimal(n)[i] == shorter[i]);
            }
        }
    }
}

/// A byte has at most two hexadecimal digits.
pub(crate) proof fn lemma_hexadecimal_len(n: nat)
    requires
        n < 0x100,
    ensures
        hexadecimal(n).len() <= 2,
{
    reveal_with_fuel(hexadecimal, 2);
}

/// Appends the lower-case hexadecimal digits of `n` to a message that has room for
/// them.
pub(crate) fn push_hexadecimal(message: &mut Message, n: u64)
    requires
        byte_len(old(message)@) + hexadecimal(n as nat).len() <= MESSAGE_CAPACITY,
    ensures
        final(message)@ == old(message)@ + hexadecimal(n as nat),
    decreases n,
{
    proof {
        lemma_hexadecimal_ascii(n as nat);
        lemma_byte_len_ascii(hexadecimal(n as nat));
        lemma_byte_len_concat(message@, hexadecimal(n as nat));
    }
    if n < 16 {
        message.push_str(digit_str(n));
    } else {
        let ghost start = message@;
        push_hexadecimal(message, n / 16);
        assert(message@ + seq![digit((n % 16) as nat)] =~= start + hexadecimal(n as nat));
        message.push_str(digit_str(n % 16));
    }
}

} // verus!
