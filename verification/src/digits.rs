//! Decimal numbers as text: reading a signed 32-bit integer from a token,
//! and writing one out, both against one mathematical model of decimal
//! notation.

use crate::strutil::push_char;
use vstd::prelude::*;

verus! {

/// Whether `c` is a decimal digit.
pub open spec fn is_digit(c: char) -> bool {
    48 <= c as int && c as int <= 57
}

/// The value of a digit character.
pub open spec fn digit_val(c: char) -> int {
    c as int - 48
}

/// The digit character for a value in `0..10`.
pub open spec fn digit_char(d: int) -> char {
    ((d + 48) as u8) as char
}

/// Whether every character of `s` is a decimal digit.
pub open spec fn all_digits(s: Seq<char>) -> bool {
    forall|i: int| 0 <= i < s.len() ==> is_digit(s[i])
}

/// The value of a digit sequence read in base ten.
pub open spec fn digits_value(s: Seq<char>) -> int
    decreases s.len(),
{
    if s.len() == 0 {
        0
    } else {
        digits_value(s.drop_last()) * 10 + digit_val(s.last())
    }
}

/// The digit sequence of a nonnegative value, most significant first.
pub open spec fn spec_nat_digits(n: int) -> Seq<char>
    decreases n,
{
    if n < 10 {
        seq![digit_char(if n < 0 { 0 } else { n })]
    } else {
        spec_nat_digits(n / 10).push(digit_char(n % 10))
    }
}

/// The decimal text of a signed value: a minus sign before the digits of
/// its magnitude when negative.
pub open spec fn spec_i32_digits(v: int) -> Seq<char> {
    if v < 0 {
        seq!['-'] + spec_nat_digits(-v)
    } else {
        spec_nat_digits(v)
    }
}

/// What reading a token as a signed 32-bit integer yields: an optional
/// `+` or `-` sign followed by at least one digit, with the value in the
/// 32-bit range; anything else is no integer.
pub open spec fn spec_parse_i32(s: Seq<char>) -> Option<int> {
    let neg = s.len() > 0 && s[0] == '-';
    let ds = if s.len() > 0 && (s[0] == '-' || s[0] == '+') {
        s.skip(1)
    } else {
        s
    };
    if ds.len() > 0 && all_digits(ds) {
        let v = if neg {
            -digits_value(ds)
        } else {
            digits_value(ds)
        };
        if -0x8000_0000 <= v && v <= 0x7fff_ffff {
            Some(v)
        } else {
            None
        }
    } else {
        None
    }
}

/// The value of a digit sequence is never negative.
pub proof fn lemma_digits_value_nonneg(s: Seq<char>)
    requires
        all_digits(s),
    ensures
        digits_value(s) >= 0,
    decreases s.len(),
{
    if s.len() > 0 {
        assert(all_digits(s.drop_last()));
        lemma_digits_value_nonneg(s.drop_last());
    }
}

/// Reads a token as a signed 32-bit integer, accepting exactly the tokens
/// that `spec_parse_i32` accepts.
pub fn parse_i32(s: &str) -> (r: Option<i32>)
    ensures
        match spec_parse_i32(s@) {
            Some(v) => r matches Some(c) && c as int == v,
            None => r is None,
        },
{
    let n = s.unicode_len();
    if n == 0 {
        return None;
    }
    let first = s.get_char(0);
    let neg = first == '-';
    let start: usize = if first == '-' || first == '+' {
        1
    } else {
        0
    };
    let ghost ds = if first == '-' || first == '+' {
        s@.skip(1)
    } else {
        s@
    };
    proof {
        if start == 0 {
            assert(ds =~= s@.skip(0));
        }
    }
    if start == n {
        proof {
            assert(ds.len() == 0);
        }
        return None;
    }
    let mut acc: u64 = 0;
    let mut big = false;
    let mut i: usize = start;
    proof {
        assert(ds.take(0) =~= Seq::<char>::empty());
    }
    while i < n
        invariant
            start <= i <= n,
            n == s@.len(),
            start <= 1,
            (start == 1) == (s@[0] == '-' || s@[0] == '+'),
            neg == (s@[0] == '-'),
            ds == s@.skip(start as int),
            ds.len() == n - start,
            all_digits(ds.take(i - start)),
            !big ==> acc as int == digits_value(ds.take(i - start)),
            !big ==> acc <= 0xffff_ffff * 10 + 9,
            big ==> digits_value(ds.take(i - start)) > 0xffff_ffff,
        decreases n - i,
    {
        let c = s.get_char(i);
        proof {
            assert(ds[i - start] == s@[i as int]);
        }
        let d = c as u32;
        if d < 48 || d > 57 {
            proof {
                assert(0 <= i - start < ds.len());
                assert(!is_digit(ds[i - start]));
                assert(!all_digits(ds));
            }
            return None;
        }
        let ghost prefix = ds.take(i - start);
        proof {
            assert(ds.take(i + 1 - start).drop_last() =~= prefix);
            assert(ds.take(i + 1 - start).last() == ds[i - start]);
            assert(is_digit(ds[i - start]));
            assert(all_digits(ds.take(i + 1 - start)));
            lemma_digits_value_nonneg(prefix);
        }
        if big || acc > 0xffff_ffff {
            proof {
                if !big {
                    assert(digits_value(prefix) == acc as int > 0xffff_ffff);
                }
                assert(digits_value(ds.take(i + 1 - start)) == digits_value(prefix) * 10
                    + digit_val(ds[i - start]));
                assert(digits_value(prefix) * 10 >= digits_value(prefix));
                assert(digits_value(ds.take(i + 1 - start)) > 0xffff_ffff);
            }
            big = true;
        } else {
            acc = acc * 10 + (d - 48) as u64;
            proof {
                assert(digits_value(ds.take(i + 1 - start)) == digits_value(prefix) * 10
                    + digit_val(ds[i - start]));
            }
        }
        i += 1;
    }
    proof {
        assert(ds.take(i - start) =~= ds);
        assert(all_digits(ds));
        lemma_digits_value_nonneg(ds);
    }
    if big {
        return None;
    }
    if neg {
        if acc > 0x8000_0000 {
            None
        } else {
            let v: i64 = -(acc as i64);
            Some(v as i32)
        }
    } else {
        if acc > 0x7fff_ffff {
            None
        } else {
            Some(acc as i32)
        }
    }
}

/// Appends the decimal digits of `n` to `s`.
pub fn push_u64_digits(s: &mut String, n: u64)
    ensures
        final(s)@ == old(s)@ + spec_nat_digits(n as int),
    decreases n,
{
    if n < 10 {
        let c = (n as u8 + 48) as char;
        push_char(s, c);
        proof {
            assert(s@ =~= old(s)@ + seq![digit_char(n as int)]);
        }
    } else {
        let ghost mid = old(s)@ + spec_nat_digits(n as int / 10);
        push_u64_digits(s, n / 10);
        let c = ((n % 10) as u8 + 48) as char;
        push_char(s, c);
        proof {
            assert(s@ =~= old(s)@ + spec_nat_digits(n as int));
        }
    }
}

/// The decimal text of a signed 32-bit integer.
pub fn i32_to_string(v: i32) -> (r: String)
    ensures
        r@ == spec_i32_digits(v as int),
{
    let mut s = String::new();
    if v < 0 {
        push_char(&mut s, '-');
        let m: u64 = (-(v as i64)) as u64;
        push_u64_digits(&mut s, m);
        proof {
            assert(s@ =~= spec_i32_digits(v as int));
        }
    } else {
        push_u64_digits(&mut s, v as u64);
        proof {
            assert(s@ =~= spec_i32_digits(v as int));
        }
    }
    s
}

} // verus!
