//! The target of the relay: a host name with a port.
//!
//! The port argument is optional and defaults to the secure-shell port;
//! when it is present it must be a decimal numeral that fits a 16-bit
//! port, with an optional leading plus sign, and anything else is a fatal
//! startup error.  `parse_port` decides that, and its contract says
//! exactly which texts are accepted and what value each yields.

use vstd::prelude::*;

verus! {

/// The port used when none is given.
pub const DEFAULT_PORT: u16 = 22;

/// Whether `b` is an ASCII decimal digit.
pub open spec fn is_digit(b: u8) -> bool {
    48 <= b <= 57
}

/// The numeric value of the digit `b`.
pub open spec fn digit_value(b: u8) -> nat
    recommends
        is_digit(b),
{
    (b - 48) as nat
}

/// The digits of a port numeral: the text with an optional leading plus
/// sign removed.
pub open spec fn numeral_digits(s: Seq<u8>) -> Seq<u8> {
    if s.len() > 0 && s[0] == 43 {
        s.skip(1)
    } else {
        s
    }
}

/// The value of a sequence of decimal digits, most significant first.
pub open spec fn digits_value(s: Seq<u8>) -> nat
    decreases s.len(),
{
    if s.len() == 0 {
        0
    } else {
        digits_value(s.drop_last()) * 10 + digit_value(s.last())
    }
}

/// Whether `s` is a well-formed port numeral: an optional leading plus
/// sign, then at least one digit and nothing else, with a value that fits
/// a 16-bit port.
pub open spec fn is_port_numeral(s: Seq<u8>) -> bool {
    let ds = numeral_digits(s);
    &&& ds.len() > 0
    &&& forall|i: int| 0 <= i < ds.len() ==> is_digit(ds[i])
    &&& digits_value(ds) <= u16::MAX
}

/// Parses the digits `ds`, saturating just above the largest port so that
/// too-large numerals are told apart without unbounded arithmetic.
fn parse_digits(ds: &Vec<u8>) -> (r: Option<u32>)
    ensures
        match r {
            Some(v) => {
                &&& ds@.len() > 0
                &&& forall|i: int| 0 <= i < ds@.len() ==> is_digit(ds@[i])
                &&& v == if digits_value(ds@) > u16::MAX {
                    (u16::MAX + 1) as u32
                } else {
                    digits_value(ds@) as u32
                }
            },
            None => ds@.len() == 0 || exists|i: int| 0 <= i < ds@.len() && !is_digit(ds@[i]),
        },
{
    let n = ds.len();
    if n == 0 {
        return None;
    }
    let mut acc: u32 = 0;
    let mut i: usize = 0;
    while i < n
        invariant
            i <= n,
            n == ds@.len(),
            forall|j: int| 0 <= j < i ==> is_digit(ds@[j]),
            acc == if digits_value(ds@.subrange(0, i as int)) > u16::MAX {
                (u16::MAX + 1) as u32
            } else {
                digits_value(ds@.subrange(0, i as int)) as u32
            },
        decreases n - i,
    {
        let b = ds[i];
        if b < 48 || b > 57 {
            return None;
        }
        proof {
            assert(ds@.subrange(0, i + 1).drop_last() =~= ds@.subrange(0, i as int));
            assert(ds@.subrange(0, i + 1).last() == ds@[i as int]);
        }
        let digit = (b - 48) as u32;
        acc = if acc > u16::MAX as u32 {
            (u16::MAX as u32) + 1
        } else if acc * 10 + digit > u16::MAX as u32 {
            (u16::MAX as u32) + 1
        } else {
            acc * 10 + digit
        };
        i = i + 1;
    }
    proof {
        assert(ds@.subrange(0, n as int) =~= ds@);
    }
    Some(acc)
}

/// Parses a port numeral: the port value when the text is an optional
/// plus sign followed by digits whose value fits a 16-bit port, and
/// nothing otherwise.
pub fn parse_port(text: &Vec<u8>) -> (r: Option<u16>)
    ensures
        r is Some <==> is_port_numeral(text@),
        r is Some ==> r->0 == digits_value(numeral_digits(text@)),
{
    let mut ds: Vec<u8> = Vec::new();
    let n = text.len();
    let start: usize = if n > 0 && text[0] == 43 {
        1
    } else {
        0
    };
    let mut i: usize = start;
    while i < n
        invariant
            start <= i <= n,
            n == text@.len(),
            start == if n > 0 && text@[0] == 43 { 1int } else { 0int },
            ds@ == text@.subrange(start as int, i as int),
        decreases n - i,
    {
        ds.push(text[i]);
        proof {
            assert(ds@ =~= text@.subrange(start as int, i + 1));
        }
        i = i + 1;
    }
    proof {
        assert(ds@ =~= numeral_digits(text@));
    }
    match parse_digits(&ds) {
        Some(v) => {
            if v <= u16::MAX as u32 {
                Some(v as u16)
            } else {
                None
            }
        },
        None => None,
    }
}

} // verus!
