//! Decimal notation: what a run of ASCII digits is worth, and how a number
//! is written.

use vstd::prelude::*;
use vstd::string::StringExecFns;

verus! {

/// The ASCII code of the digit `0`.
pub const ASCII_ZERO: u8 = 48;

/// The ASCII code of the digit `9`.
pub const ASCII_NINE: u8 = 57;

/// Whether `byte` is one of the ASCII digits `0` to `9`.
pub open spec fn is_digit(byte: u8) -> bool {
    ASCII_ZERO <= byte <= ASCII_NINE
}

/// Whether `text` holds ASCII digits and nothing else.
pub open spec fn all_digits(text: Seq<u8>) -> bool {
    forall|i: int| 0 <= i < text.len() ==> is_digit(#[trigger] text[i])
}

/// The number that a run of ASCII digits denotes in base ten, the first
/// digit being the most significant. The empty run denotes zero.
pub open spec fn decimal_value(digits: Seq<u8>) -> nat
    recommends
        all_digits(digits),
    decreases digits.len(),
{
    if digits.len() == 0 {
        0
    } else {
        (10 * decimal_value(digits.drop_last()) + (digits.last() - ASCII_ZERO)) as nat
    }
}

/// The ASCII digit that stands for `digit`, a number below ten.
pub open spec fn digit_byte(digit: nat) -> u8
    recommends
        digit < 10,
{
    (ASCII_ZERO + digit) as u8
}

/// The shortest decimal notation of `n`: ASCII digits without a leading
/// zero, except for zero itself, which is written `0`.
pub open spec fn decimal_digits(n: nat) -> Seq<u8>
    decreases n,
{
    if n < 10 {
        seq![digit_byte(n)]
    } else {
        decimal_digits(n / 10).push(digit_byte(n % 10))
    }
}

/// Appending one digit multiplies the value by ten and adds the digit.
pub proof fn lemma_value_push(digits: Seq<u8>, byte: u8)
    requires
        is_digit(byte),
    ensures
        decimal_value(digits.push(byte)) == 10 * decimal_value(digits) + (byte - ASCII_ZERO),
{
    assert(digits.push(byte).drop_last() =~= digits);
}

/// A run of digits is worth at least as much as each of its prefixes.
pub proof fn lemma_value_of_prefix(digits: Seq<u8>, len: int)
    requires
        all_digits(digits),
        0 <= len <= digits.len(),
    ensures
        decimal_value(digits.take(len)) <= decimal_value(digits),
    decreases digits.len() - len,
{
    if len < digits.len() {
        lemma_value_of_prefix(digits, len + 1);
        assert(digits.take(len + 1).drop_last() =~= digits.take(len));
    } else {
        assert(digits.take(len) =~= digits);
    }
}

/// A zero in front of a run of digits does not change what the run denotes.
pub proof fn lemma_leading_zero(digits: Seq<u8>)
    requires
        all_digits(digits),
    ensures
        decimal_value(seq![ASCII_ZERO] + digits) == decimal_value(digits),
    decreases digits.len(),
{
    let zero = seq![ASCII_ZERO];
    if digits.len() == 0 {
        assert(zero + digits =~= Seq::<u8>::empty().push(ASCII_ZERO));
        lemma_value_push(Seq::<u8>::empty(), ASCII_ZERO);
    } else {
        lemma_leading_zero(digits.drop_last());
        assert((zero + digits).drop_last() =~= zero + digits.drop_last());
    }
}

/// The notation of a number holds at least one digit, digits only, and
/// denotes that number. It begins with a zero for zero alone.
pub proof fn lemma_decimal_digits(n: nat)
    ensures
        decimal_digits(n).len() >= 1,
        all_digits(decimal_digits(n)),
        decimal_value(decimal_digits(n)) == n,
        decimal_digits(n)[0] == ASCII_ZERO <==> n == 0,
    decreases n,
{
    if n < 10 {
        lemma_value_push(Seq::<u8>::empty(), digit_byte(n));
        assert(decimal_digits(n) =~= Seq::<u8>::empty().push(digit_byte(n)));
    } else {
        lemma_decimal_digits(n / 10);
        lemma_value_push(decimal_digits(n / 10), digit_byte(n % 10));
    }
}

/// The characters that a run of ASCII bytes shows as text.
pub open spec fn ascii_text(bytes: Seq<u8>) -> Seq<char> {
    bytes.map_values(|byte: u8| byte as char)
}

/// The one-character text of a digit.
fn digit_text(digit: u8) -> (text: &'static str)
    requires
        digit < 10,
    ensures
        text@ == ascii_text(seq![digit_byte(digit as nat)]),
{
    proof {
        reveal_strlit("0");
        reveal_strlit("1");
        reveal_strlit("2");
        reveal_strlit("3");
        reveal_strlit("4");
        reveal_strlit("5");
        reveal_strlit("6");
        reveal_strlit("7");
        reveal_strlit("8");
        reveal_strlit("9");
    }
    let text = match digit {
        0 => "0",
        1 => "1",
        2 => "2",
        3 => "3",
        4 => "4",
        5 => "5",
        6 => "6",
        7 => "7",
        8 => "8",
        _ => "9",
    };
    assert(text@ =~= ascii_text(seq![digit_byte(digit as nat)]));
    text
}

/// Appends the decimal notation of `n` to `text`.
pub(crate) fn append_decimal(text: &mut String, n: u16)
    ensures
        final(text)@ == old(text)@ + ascii_text(decimal_digits(n as nat)),
    decreases n,
{
    if n >= 10 {
        append_decimal(text, n / 10);
    }
    let digit = (n % 10) as u8;
    text.append(digit_text(digit));
    proof {
        let last = seq![digit_byte(digit as nat)];
        if n >= 10 {
            let front = decimal_digits((n / 10) as nat);
            assert(decimal_digits(n as nat) =~= front + last);
            assert(ascii_text(front + last) =~= ascii_text(front) + ascii_text(last));
        } else {
            assert(decimal_digits(n as nat) =~= last);
        }
    }
}

} // verus!
