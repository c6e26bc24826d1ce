//! Parsing the raw port string as an unsigned 16-bit integer.
//!
//! This is the late validation step shared by both strategies; its failure
//! is `PortNotFound` carrying the parse failure's description, and is never
//! marked as a lock-file error.

use vstd::prelude::*;
use crate::errors::Error;
use crate::errors::ErrorKind;

verus! {

/// Whether `c` is a decimal digit.
pub open spec fn is_digit(c: char) -> bool {
    48 <= c as u32 <= 57
}

/// The value of the digit `c`.
pub open spec fn digit_value(c: char) -> int {
    c as u32 - 48
}

/// The description of a parse failure on an empty string.
pub open spec fn empty_message() -> Seq<char> {
    "cannot parse integer from empty string"@
}

/// The description of a parse failure on a non-digit character.
pub open spec fn invalid_digit_message() -> Seq<char> {
    "invalid digit found in string"@
}

/// The description of a parse failure on a value above the type's maximum.
pub open spec fn overflow_message() -> Seq<char> {
    "number too large to fit in target type"@
}

/// Scan the remaining characters left to right on top of the value read so
/// far, reporting the first failure: a non-digit character, or a value that
/// no longer fits in 16 bits.
pub open spec fn parse_digits(s: Seq<char>, acc: int) -> Result<u16, Seq<char>>
    decreases s.len(),
{
    if s.len() == 0 {
        Ok(acc as u16)
    } else if !is_digit(s[0]) {
        Err(invalid_digit_message())
    } else if acc * 10 + digit_value(s[0]) > 65535 {
        Err(overflow_message())
    } else {
        parse_digits(s.drop_first(), acc * 10 + digit_value(s[0]))
    }
}

/// How a string parses as an unsigned 16-bit integer: an optional leading
/// `+`, then decimal digits; the failure descriptions name the first thing
/// that went wrong.
pub open spec fn parse_port_spec(s: Seq<char>) -> Result<u16, Seq<char>> {
    if s.len() == 0 {
        Err(empty_message())
    } else {
        let digits = if s[0] == '+' {
            s.drop_first()
        } else {
            s
        };
        if digits.len() == 0 {
            Err(invalid_digit_message())
        } else {
            parse_digits(digits, 0)
        }
    }
}

/// Parse the raw port string, turning a parse failure into `PortNotFound`
/// with the failure's description as the message.
pub fn parse_port(s: &str) -> (r: Result<u16, Error>)
    ensures
        match r {
            Ok(p) => parse_port_spec(s@) == Ok::<_, Seq<char>>(p),
            Err(e) => {
                &&& parse_port_spec(s@) == Err::<u16, _>(e.spec_message())
                &&& e.spec_kind() == ErrorKind::PortNotFound
                &&& !e.spec_lock_file_error()
            },
        },
{
    let n = s.unicode_len();
    if n == 0 {
        return Err(Error::new(ErrorKind::PortNotFound, "cannot parse integer from empty string"));
    }
    let first = s.get_char(0);
    let start: usize = if first == '+' {
        1
    } else {
        0
    };
    if n == start {
        return Err(Error::new(ErrorKind::PortNotFound, "invalid digit found in string"));
    }
    let ghost digits = if s@[0] == '+' {
        s@.drop_first()
    } else {
        s@
    };
    proof {
        assert(digits =~= s@.skip(start as int));
    }
    let mut acc: u32 = 0;
    let mut i: usize = start;
    while i < n
        invariant
            start <= i <= n,
            n == s@.len(),
            digits == s@.skip(start as int),
            digits.len() > 0,
            acc <= 65535,
            parse_digits(digits, 0) == parse_digits(s@.skip(i as int), acc as int),
            parse_port_spec(s@) == parse_digits(digits, 0),
        decreases n - i,
    {
        proof {
            assert(s@.skip(i as int)[0] == s@[i as int]);
            assert(s@.skip(i as int).drop_first() =~= s@.skip(i + 1));
        }
        let c = s.get_char(i);
        let cv = c as u32;
        if cv < 48 || cv > 57 {
            return Err(Error::new(ErrorKind::PortNotFound, "invalid digit found in string"));
        }
        let d = cv - 48;
        if acc * 10 + d > 65535 {
            return Err(
                Error::new(ErrorKind::PortNotFound, "number too large to fit in target type"),
            );
        }
        acc = acc * 10 + d;
        i += 1;
    }
    proof {
        assert(s@.skip(n as int) =~= Seq::<char>::empty());
    }
    Ok(acc as u16)
}

} // verus!
