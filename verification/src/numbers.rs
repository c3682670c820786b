//! Parsing one numeric field of a response line: a signed decimal integer,
//! with the sentinel -1 substituted when the token does not parse; and
//! rendering a status code back into decimal digits for an error message.

use vstd::prelude::*;
use vstd::string::StringExecFns;

verus! {

/// An ASCII decimal digit.
pub open spec fn is_digit(b: u8) -> bool {
    48 <= b && b <= 57
}

/// Every byte of `s` is a decimal digit.
pub open spec fn all_digits(s: Seq<u8>) -> bool {
    forall|i: int| 0 <= i < s.len() ==> is_digit(#[trigger] s[i])
}

/// The value of a sequence of decimal digits, most significant first.
pub open spec fn digits_value(s: Seq<u8>) -> int
    decreases s.len(),
{
    if s.len() == 0 {
        0
    } else {
        digits_value(s.drop_last()) * 10 + (s.last() - 48)
    }
}

/// What parsing `s` as a signed 64-bit decimal integer gives: `Some` of the
/// value for an optional sign followed by one or more digits, whose value
/// fits in an `i64`; `None` for anything else. This is the grammar that
/// `i64`'s standard string parsing documents.
pub open spec fn parsed_i64(s: Seq<u8>) -> Option<int> {
    let neg = s.len() > 0 && s[0] == 45;
    let digits = if s.len() > 0 && (s[0] == 45 || s[0] == 43) {
        s.skip(1)
    } else {
        s
    };
    if digits.len() > 0 && all_digits(digits) {
        let v = if neg {
            -digits_value(digits)
        } else {
            digits_value(digits)
        };
        if i64::MIN <= v <= i64::MAX {
            Some(v)
        } else {
            None
        }
    } else {
        None
    }
}

/// The value a field comes to: the parsed integer, or the sentinel -1 when
/// the token does not parse.
pub open spec fn field_value(s: Seq<u8>) -> int {
    match parsed_i64(s) {
        Some(v) => v,
        None => -1,
    }
}

/// Parses one field token, substituting -1 when it does not parse, as
/// [`field_value`] describes.
pub fn parse_field(s: &[u8]) -> (r: i64)
    ensures
        r as int == field_value(s@),
{
    let n = s.len();
    let mut i: usize = 0;
    let mut neg = false;
    if n > 0 && (s[0] == 45 || s[0] == 43) {
        neg = s[0] == 45;
        i = 1;
    }
    let ghost digits = s@.skip(i as int);
    let start = i;
    proof {
        assert(s@.skip(0) =~= s@);
    }
    if i == n {
        // No digits at all: the token is empty or a bare sign.
        return -1;
    }
    let mut acc: u64 = 0;
    let mut overflow = false;
    while i < n
        invariant
            start <= i <= n == s@.len(),
            neg <==> (s@.len() > 0 && s@[0] == 45),
            start as int == (if s@.len() > 0 && (s@[0] == 45 || s@[0] == 43) {
                1int
            } else {
                0int
            }),
            digits == s@.skip(start as int),
            digits.len() == n - start,
            forall|k: int| 0 <= k < i - start ==> is_digit(#[trigger] digits[k]),
            !overflow ==> acc == digits_value(digits.take(i - start)),
            overflow ==> digits_value(digits.take(i - start)) > u64::MAX,
        decreases n - i,
    {
        let b = s[i];
        if b < 48 || b > 57 {
            proof {
                assert(digits[i - start] == s@[i as int]);
                assert(!all_digits(digits));
            }
            return -1;
        }
        let d = b - 48;
        proof {
            let m = i - start;
            assert(digits[m] == s@[i as int]);
            assert(digits.take(m + 1).drop_last() =~= digits.take(m));
            assert(digits.take(m + 1).last() == digits[m]);
        }
        if overflow || acc > (u64::MAX - d as u64) / 10 {
            proof {
                let m = i - start;
                if !overflow {
                    assert(acc * 10 + d > u64::MAX) by (nonlinear_arith)
                        requires
                            acc > (u64::MAX - d as u64) / 10,
                            0 <= d <= 9,
                    ;
                    assert(digits_value(digits.take(m + 1)) == acc * 10 + d);
                } else {
                    assert(digits_value(digits.take(m)) * 10 + d > u64::MAX) by (nonlinear_arith)
                        requires
                            digits_value(digits.take(m)) > u64::MAX,
                            0 <= d,
                    ;
                }
            }
            overflow = true;
        } else {
            proof {
                assert(acc * 10 + d <= u64::MAX) by (nonlinear_arith)
                    requires
                        acc <= (u64::MAX - d as u64) / 10,
                        0 <= d <= 9,
                ;
            }
            acc = acc * 10 + d as u64;
        }
        i += 1;
    }
    proof {
        assert(digits.take(n - start) =~= digits);
        assert(all_digits(digits));
    }
    if overflow {
        // The digit string's value is beyond any i64, so parsing fails.
        return -1;
    }
    if neg {
        if acc <= 9223372036854775808u64 {
            if acc == 9223372036854775808u64 {
                i64::MIN
            } else {
                -(acc as i64)
            }
        } else {
            -1
        }
    } else {
        if acc <= 9223372036854775807u64 {
            acc as i64
        } else {
            -1
        }
    }
}

/// The character for one decimal digit value.
pub open spec fn digit_char(d: int) -> char {
    if d == 0 { '0' }
    else if d == 1 { '1' }
    else if d == 2 { '2' }
    else if d == 3 { '3' }
    else if d == 4 { '4' }
    else if d == 5 { '5' }
    else if d == 6 { '6' }
    else if d == 7 { '7' }
    else if d == 8 { '8' }
    else { '9' }
}

/// The decimal rendering of a non-negative number, most significant digit
/// first, with no leading zeros except for the number 0 itself.
pub open spec fn dec_digits(n: int) -> Seq<char>
    decreases n,
{
    if n < 10 {
        seq![digit_char(n)]
    } else {
        dec_digits(n / 10).push(digit_char(n % 10))
    }
}

fn digit_str(d: u8) -> (r: &'static str)
    requires
        d < 10,
    ensures
        r@ == seq![digit_char(d as int)],
{
    proof {
        reveal_strlit("0");
        reveal_strlit("1");
        reveal_strlit("2");
        reveal_strlit("3");
        reveal_strlit("4");
        reveal_strlit("5");
        reveal_strlit("6");
        reveal_strlit("7");
        reveal_strlit("8");
        reveal_strlit("9");
        assert(("0")@ =~= seq![digit_char(0)]);
        assert(("1")@ =~= seq![digit_char(1)]);
        assert(("2")@ =~= seq![digit_char(2)]);
        assert(("3")@ =~= seq![digit_char(3)]);
        assert(("4")@ =~= seq![digit_char(4)]);
        assert(("5")@ =~= seq![digit_char(5)]);
        assert(("6")@ =~= seq![digit_char(6)]);
        assert(("7")@ =~= seq![digit_char(7)]);
        assert(("8")@ =~= seq![digit_char(8)]);
        assert(("9")@ =~= seq![digit_char(9)]);
    }
    match d {
        0 => "0",
        1 => "1",
        2 => "2",
        3 => "3",
        4 => "4",
        5 => "5",
        6 => "6",
        7 => "7",
        8 => "8",
        _ => "9",
    }
}

/// Appends the decimal rendering of `n` to `u`, as [`dec_digits`]
/// describes.
pub fn push_decimal(u: &mut String, n: u16)
    ensures
        final(u)@ == old(u)@ + dec_digits(n as int),
    decreases n,
{
    let ghost before = u@;
    if n >= 10 {
        push_decimal(u, n / 10);
    }
    u.append(digit_str((n % 10) as u8));
    proof {
        if n < 10 {
            assert(n as int % 10 == n as int);
            assert(u@ =~= before + dec_digits(n as int));
        } else {
            assert(u@ =~= before + dec_digits(n as int));
        }
    }
}

} // verus!
