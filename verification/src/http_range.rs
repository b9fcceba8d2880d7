//! The value of the `Range` header that asks a server for one run of bytes:
//! `bytes=<first>-<last>`, both bounds in decimal, the last one inclusive.

use vstd::prelude::*;
use vstd::string::StringExecFns;
use crate::layout::ByteRange;

verus! {

/// The character of the decimal digit `d`.
pub open spec fn digit_char(d: nat) -> char
    recommends
        d < 10,
{
    if d == 0 {
        '0'
    } else if d == 1 {
        '1'
    } else if d == 2 {
        '2'
    } else if d == 3 {
        '3'
    } else if d == 4 {
        '4'
    } else if d == 5 {
        '5'
    } else if d == 6 {
        '6'
    } else if d == 7 {
        '7'
    } else if d == 8 {
        '8'
    } else {
        '9'
    }
}

/// The decimal numeral of `n`: its digits from the most significant one, with
/// no leading zero (and the single digit `0` for zero).
pub open spec fn decimal_digits(n: nat) -> Seq<char>
    decreases n,
{
    if n < 10 {
        seq![digit_char(n)]
    } else {
        decimal_digits(n / 10).push(digit_char(n % 10))
    }
}

/// The header value that asks for the bytes from offset `first` to offset
/// `last`, both included.
pub open spec fn spec_range_header(first: nat, last: nat) -> Seq<char> {
    seq!['b', 'y', 't', 'e', 's', '='] + decimal_digits(first) + seq!['-'] + decimal_digits(last)
}

/// The one-character text of a decimal digit.
fn digit_text(d: u64) -> (r: &'static str)
    requires
        d < 10,
    ensures
        r@ == seq![digit_char(d as nat)],
{
    proof {
        reveal_strlit("0");
        reveal_strlit("1");
        reveal_strlit("2");
        reveal_strlit("3");
        reveal_strlit("4");
        reveal_strlit("5");
        reveal_strlit("6");
        reveal_strlit("7");
        reveal_strlit("8");
        reveal_strlit("9");
    }
    let text: &'static str = if d == 0 {
        "0"
    } else if d == 1 {
        "1"
    } else if d == 2 {
        "2"
    } else if d == 3 {
        "3"
    } else if d == 4 {
        "4"
    } else if d == 5 {
        "5"
    } else if d == 6 {
        "6"
    } else if d == 7 {
        "7"
    } else if d == 8 {
        "8"
    } else {
        "9"
    };
    assert(text@ =~= seq![digit_char(d as nat)]);
    text
}

/// The decimal numeral of `n`.
pub fn decimal(n: u64) -> (r: String)
    ensures
        r@ == decimal_digits(n as nat),
    decreases n,
{
    if n < 10 {
        String::from_str(digit_text(n))
    } else {
        let mut text: String = decimal(n / 10);
        text.append(digit_text(n % 10));
        assert(text@ =~= decimal_digits(n as nat));
        text
    }
}

/// The `Range` header value that asks for the bytes from offset `first` to
/// offset `last`, both included: `bytes=<first>-<last>`.
pub fn header(first: u64, last: u64) -> (r: String)
    ensures
        r@ == spec_range_header(first as nat, last as nat),
{
    proof {
        reveal_strlit("bytes=");
        reveal_strlit("-");
    }
    let mut value: String = String::from_str("bytes=");
    let first_digits: String = decimal(first);
    value.append(first_digits.as_str());
    value.append("-");
    let last_digits: String = decimal(last);
    value.append(last_digits.as_str());
    assert(value@ =~= spec_range_header(first as nat, last as nat));
    value
}

/// The `Range` header value for `range`, from its first byte to its last. An
/// empty range cannot be asked for, since the end bound is inclusive; it gives
/// `None`, as does a range that runs past the largest offset.
pub fn range_header(range: &ByteRange) -> (r: Option<String>)
    ensures
        match r {
            Some(value) => {
                &&& range.len >= 1
                &&& range.spec_last() <= u64::MAX
                &&& value@ == spec_range_header(range.start as nat, range.spec_last() as nat)
            },
            None => range.len == 0 || range.spec_last() > u64::MAX,
        },
{
    match range.last() {
        None => None,
        Some(last) => Some(header(range.start, last)),
    }
}

} // verus!
