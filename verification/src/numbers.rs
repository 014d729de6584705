//! Decimal parsing of exit-status arguments: an optional sign, then
//! digits, accepted exactly when the value fits a 32-bit signed integer.

use vstd::prelude::*;

verus! {

/// An ASCII decimal digit.
pub open spec fn is_digit_char(c: char) -> bool {
    0x30 <= c as u32 && c as u32 <= 0x39
}

/// The numeric value of one digit.
pub open spec fn digit_val(c: char) -> int {
    c as u32 - 0x30
}

/// Every character of `s` is a decimal digit.
pub open spec fn all_digits(s: Seq<char>) -> bool {
    forall|j: int| 0 <= j < s.len() ==> is_digit_char(s[j])
}

/// The value of a digit string read in base ten.
pub open spec fn digits_val(s: Seq<char>) -> int
    decreases s.len(),
{
    if s.len() == 0 {
        0
    } else {
        digits_val(s.drop_last()) * 10 + digit_val(s.last())
    }
}

/// A digit string never reads as a negative value.
pub proof fn lemma_digits_val_nonneg(s: Seq<char>)
    requires
        all_digits(s),
    ensures
        digits_val(s) >= 0,
    decreases s.len(),
{
    if s.len() > 0 {
        lemma_digits_val_nonneg(s.drop_last());
    }
}

/// The value of `s`, read as a decimal 32-bit signed integer the way the
/// standard parser does: an optional `+` or `-`, then at least one
/// digit, nothing else, and a value within the type's range.
pub open spec fn spec_parse_i32(s: Seq<char>) -> Option<i32> {
    let neg = s.len() > 0 && s[0] == '-';
    let digits = if s.len() > 0 && (s[0] == '-' || s[0] == '+') {
        s.drop_first()
    } else {
        s
    };
    if digits.len() == 0 || !all_digits(digits) {
        None
    } else {
        let v = if neg {
            -digits_val(digits)
        } else {
            digits_val(digits)
        };
        if i32::MIN <= v <= i32::MAX {
            Some(v as i32)
        } else {
            None
        }
    }
}

/// Reads a decimal 32-bit signed integer, returning `None` on any
/// malformed or out-of-range input.
pub fn parse_i32(s: &str) -> (r: Option<i32>)
    ensures
        r == spec_parse_i32(s@),
{
    let n = s.unicode_len();
    let mut start: usize = 0;
    let mut neg = false;
    if n > 0 {
        let c0 = s.get_char(0);
        if c0 == '-' {
            neg = true;
            start = 1;
        } else if c0 == '+' {
            start = 1;
        }
    }
    if start == n {
        // no digits at all
        return None;
    }
    proof {
        if start == 1 {
            assert(s@.drop_first() =~= s@.subrange(1, n as int));
        } else {
            assert(s@ =~= s@.subrange(0, n as int));
        }
        assert(s@.subrange(start as int, start as int) =~= Seq::<char>::empty());
    }
    // acc saturates at 2^32, past every representable magnitude
    let cap: u64 = 0x1_0000_0000;
    let mut acc: u64 = 0;
    let mut j: usize = start;
    while j < n
        invariant
            start <= j <= n,
            n == s@.len(),
            start < n,
            s@.subrange(start as int, n as int) == (if s@.len() > 0 && (s@[0] == '-' || s@[0]
                == '+') {
                s@.drop_first()
            } else {
                s@
            }),
            acc <= cap,
            cap == 0x1_0000_0000u64,
            all_digits(s@.subrange(start as int, j as int)),
            acc < cap ==> acc == digits_val(s@.subrange(start as int, j as int)),
            acc == cap ==> digits_val(s@.subrange(start as int, j as int)) >= cap,
        decreases n - j,
    {
        let c = s.get_char(j);
        let u = c as u32;
        if u < 0x30 || u > 0x39 {
            proof {
                let full = s@.subrange(start as int, n as int);
                assert(full[j - start] == s@[j as int]);
                assert(!is_digit_char(full[j - start]));
            }
            return None;
        }
        let d: u64 = (u - 0x30) as u64;
        let ghost prefix = s@.subrange(start as int, j as int);
        let ghost extended = s@.subrange(start as int, j as int + 1);
        proof {
            assert(extended.drop_last() =~= prefix);
            lemma_digits_val_nonneg(prefix);
        }
        let next = acc * 10 + d;
        if next >= cap {
            acc = cap;
        } else {
            acc = next;
        }
        j = j + 1;
    }
    let ghost digits = s@.subrange(start as int, n as int);
    proof {
        if start == 0 {
            assert(digits =~= s@);
        }
        lemma_digits_val_nonneg(digits);
    }
    if neg {
        if acc > 0x8000_0000u64 {
            return None;
        }
        let v: i64 = -(acc as i64);
        Some(v as i32)
    } else {
        if acc > 0x7FFF_FFFFu64 {
            return None;
        }
        Some(acc as i32)
    }
}

} // verus!
