//! The listening port: how it is chosen from the value of the `PORT`
//! environment variable.
//!
//! The value is taken as the bytes that the environment holds, so that a
//! value that is not text can be handed over as it is. It names a port when
//! it is a decimal number of the 16-bit range: ASCII digits, at least one,
//! with one `+` allowed in front of them and nothing else around them.
//! Leading zeros do not count. Without a value the service listens on
//! [`DEFAULT_PORT`].

use vstd::prelude::*;
use vstd::utf8::{
    is_leading_byte_width_1,
    partial_valid_utf8,
    partial_valid_utf8_extend_ascii_block,
    valid_utf8,
};
use crate::decimal::{
    all_digits,
    decimal_digits,
    decimal_value,
    is_digit,
    lemma_decimal_digits,
    lemma_value_push,
    ASCII_NINE,
    ASCII_ZERO,
};

verus! {

/// The name of the environment variable that holds the port.
pub const PORT_VARIABLE: &'static str = "PORT";

/// The port of a service whose environment names none.
pub const DEFAULT_PORT: u16 = 50051;

/// The ASCII code of the sign `+`.
pub const ASCII_PLUS: u8 = 43;

/// Why a value names no port.
#[derive(Clone, Copy, Debug, PartialEq, Eq, Hash, Structural)]
pub enum PortError {
    /// The value is not a decimal number: it is empty, a lone sign, or
    /// holds a byte that is no digit. A value that is not UTF-8 is of this
    /// kind.
    NotANumber,
    /// The value is a decimal number above 65535.
    OutOfRange,
}

/// The digits of a value: the value without its leading `+`, if it has one.
pub open spec fn unsigned_part(text: Seq<u8>) -> Seq<u8> {
    if text.len() > 0 && text[0] == ASCII_PLUS {
        text.skip(1)
    } else {
        text
    }
}

/// Whether a value is a decimal number.
pub open spec fn is_number(text: Seq<u8>) -> bool {
    unsigned_part(text).len() > 0 && all_digits(unsigned_part(text))
}

/// The port that a value names, or the reason why it names none.
pub open spec fn parsed_port(text: Seq<u8>) -> Result<u16, PortError> {
    if !is_number(text) {
        Err(PortError::NotANumber)
    } else if decimal_value(unsigned_part(text)) > u16::MAX {
        Err(PortError::OutOfRange)
    } else {
        Ok(decimal_value(unsigned_part(text)) as u16)
    }
}

/// The port of a service whose environment holds `value` under
/// [`PORT_VARIABLE`]; `None` stands for a variable that is not set.
pub open spec fn resolved_port(value: Option<Seq<u8>>) -> Result<u16, PortError> {
    match value {
        None => Ok(DEFAULT_PORT),
        Some(text) => parsed_port(text),
    }
}

/// Reads a port from the bytes of a value.
pub fn parse_port(text: &[u8]) -> (port: Result<u16, PortError>)
    ensures
        port == parsed_port(text@),
{
    let len = text.len();
    let start: usize = if len > 0 && text[0] == ASCII_PLUS {
        1
    } else {
        0
    };
    let ghost digits = unsigned_part(text@);
    if start == len {
        return Err(PortError::NotANumber);
    }
    // `value` is what the digits read so far denote, for as long as that
    // fits a port; `fits` says whether it still does.
    let mut value: u32 = 0;
    let mut fits = true;
    let mut i = start;
    while i < len
        invariant
            len == text.len(),
            start <= i <= len,
            digits == unsigned_part(text@),
            digits.len() == len - start,
            forall|k: int| 0 <= k < digits.len() ==> digits[k] == text@[start + k],
            all_digits(digits.take(i - start)),
            fits ==> value == decimal_value(digits.take(i - start)) && value <= u16::MAX,
            !fits ==> decimal_value(digits.take(i - start)) > u16::MAX,
        decreases len - i,
    {
        let byte = text[i];
        if byte < ASCII_ZERO || byte > ASCII_NINE {
            assert(!is_digit(digits[i - start]));
            return Err(PortError::NotANumber);
        }
        proof {
            assert(digits.take(i - start + 1) =~= digits.take(i - start).push(byte));
            lemma_value_push(digits.take(i - start), byte);
        }
        if fits {
            let next: u32 = value * 10 + (byte - ASCII_ZERO) as u32;
            if next > 65535 {
                fits = false;
            } else {
                value = next;
            }
        }
        i += 1;
    }
    assert(digits.take(len - start) =~= digits);
    if fits {
        Ok(value as u16)
    } else {
        Err(PortError::OutOfRange)
    }
}

/// Chooses the port from what the environment holds under
/// [`PORT_VARIABLE`]: pass `None` where the variable is not set.
///
/// A variable that is not set gives [`DEFAULT_PORT`]. A value that is set
/// is never replaced by the default: it names a port or is an error.
pub fn resolve_port(value: Option<&[u8]>) -> (port: Result<u16, PortError>)
    ensures
        port == resolved_port(
            match value {
                Some(text) => Some(text@),
                None => None,
            },
        ),
{
    match value {
        None => Ok(DEFAULT_PORT),
        Some(text) => parse_port(text),
    }
}

/// A value that is not UTF-8 names no port: it is not a number.
pub proof fn lemma_not_utf8_is_not_a_number(text: Seq<u8>)
    requires
        !valid_utf8(text),
    ensures
        parsed_port(text) == Err::<u16, PortError>(PortError::NotANumber),
{
    if is_number(text) {
        let digits = unsigned_part(text);
        assert forall|i: int| 0 <= i < text.len() implies #[trigger] is_leading_byte_width_1(
            text[i],
        ) by {
            if digits.len() == text.len() {
                assert(is_digit(digits[i]));
            } else if i > 0 {
                assert(is_digit(digits[i - 1]));
            }
        }
        assert(text.subrange(0, 0) =~= Seq::<u8>::empty());
        assert(partial_valid_utf8(text, 0));
        partial_valid_utf8_extend_ascii_block(text, 0, text.len() as int);
        assert(text.subrange(0, text.len() as int) =~= text);
    }
}

/// Every port is read back from its own decimal notation.
pub proof fn lemma_notation_names_port(port: u16)
    ensures
        parsed_port(decimal_digits(port as nat)) == Ok::<u16, PortError>(port),
{
    lemma_decimal_digits(port as nat);
    let digits = decimal_digits(port as nat);
    assert(is_digit(digits[0]));
}

} // verus!
