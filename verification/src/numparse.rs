//! Decimal number parsing for answer validation: an integer question
//! accepts what `i32` accepts (an optional sign followed by decimal
//! digits), an option question accepts a non-negative index.  The
//! accepted strings and their values are pinned down by spec functions,
//! and the parsers are proved against them.

use vstd::prelude::*;

verus! {

/// Whether `c` is a decimal digit.
pub open spec fn is_digit(c: char) -> bool {
    '0' <= c && c <= '9'
}

/// The value of one decimal digit.
pub open spec fn digit_val(c: char) -> int {
    c as int - '0' as int
}

/// Whether every character of `s` is a decimal digit.
pub open spec fn all_digits(s: Seq<char>) -> bool {
    forall|i: int| 0 <= i < s.len() ==> is_digit(#[trigger] s[i])
}

/// The value of a string of decimal digits, most significant first.
pub open spec fn digits_val(s: Seq<char>) -> int
    decreases s.len(),
{
    if s.len() == 0 {
        0
    } else {
        digits_val(s.drop_last()) * 10 + digit_val(s.last())
    }
}

/// The digit part of an integer literal: everything after a leading
/// sign, if there is one.
pub open spec fn int_body(s: Seq<char>) -> Seq<char> {
    if s.len() > 0 && (s[0] == '+' || s[0] == '-') {
        s.subrange(1, s.len() as int)
    } else {
        s
    }
}

/// The sign of an integer literal: `-1` under a leading minus, else `1`.
pub open spec fn int_sign(s: Seq<char>) -> int {
    if s.len() > 0 && s[0] == '-' {
        -1
    } else {
        1
    }
}

/// Whether `s` is a well-formed integer literal: an optional sign
/// followed by at least one decimal digit.
pub open spec fn valid_int_str(s: Seq<char>) -> bool {
    int_body(s).len() > 0 && all_digits(int_body(s))
}

/// The mathematical value of a well-formed integer literal.
pub open spec fn int_str_val(s: Seq<char>) -> int {
    int_sign(s) * digits_val(int_body(s))
}

/// What parsing `s` as an `i32` yields: the value of a well-formed
/// literal when it fits, nothing otherwise.
pub open spec fn spec_parse_i32(s: Seq<char>) -> Option<i32> {
    if valid_int_str(s) && i32::MIN <= int_str_val(s) <= i32::MAX {
        Some(int_str_val(s) as i32)
    } else {
        None
    }
}

/// The digit part of an index literal: everything after a leading plus,
/// if there is one.  A minus is not allowed for an index.
pub open spec fn index_body(s: Seq<char>) -> Seq<char> {
    if s.len() > 0 && s[0] == '+' {
        s.subrange(1, s.len() as int)
    } else {
        s
    }
}

/// Whether `s` is a well-formed non-negative index literal.
pub open spec fn valid_index_str(s: Seq<char>) -> bool {
    index_body(s).len() > 0 && all_digits(index_body(s))
}

/// The mathematical value of a well-formed index literal.
pub open spec fn index_str_val(s: Seq<char>) -> int {
    digits_val(index_body(s))
}

/// The value of a digit string is never negative.
pub proof fn lemma_digits_val_nonneg(s: Seq<char>)
    requires
        all_digits(s),
    ensures
        digits_val(s) >= 0,
    decreases s.len(),
{
    if s.len() > 0 {
        assert(all_digits(s.drop_last()));
        lemma_digits_val_nonneg(s.drop_last());
    }
}

/// Appending one digit multiplies the value by ten and adds the digit.
proof fn lemma_digits_val_push(s: Seq<char>, c: char)
    ensures
        digits_val(s.push(c)) == digits_val(s) * 10 + digit_val(c),
{
    assert(s.push(c).drop_last() =~= s);
    assert(s.push(c).last() == c);
}

/// Scans `s` from index `start` on as a digit string.  Yields the value
/// when every character is a digit and the value is at most `cap`;
/// `None` when a non-digit appears, the range is empty, or the value
/// exceeds `cap`.
fn scan_digits(s: &str, start: usize, cap: u64) -> (r: Option<u64>)
    requires
        start <= s@.len(),
    ensures
        ({
            let body = s@.subrange(start as int, s@.len() as int);
            match r {
                Some(v) => body.len() > 0 && all_digits(body) && digits_val(body) == v && v
                    <= cap,
                None => body.len() == 0 || !all_digits(body) || digits_val(body) > cap,
            }
        }),
{
    let n = s.unicode_len();
    if start >= n {
        return None;
    }
    let mut i: usize = start;
    let mut acc: u128 = 0;
    let mut too_big: bool = false;
    while i < n
        invariant
            start <= i <= n,
            n == s@.len(),
            all_digits(s@.subrange(start as int, i as int)),
            !too_big ==> acc == digits_val(s@.subrange(start as int, i as int)) && acc
                <= cap,
            too_big ==> digits_val(s@.subrange(start as int, i as int)) > cap,
            cap <= u64::MAX,
        decreases n - i,
    {
        let c = s.get_char(i);
        if c < '0' || c > '9' {
            proof {
                assert(s@.subrange(start as int, s@.len() as int)[i - start] == s@[i as int]);
                assert(!is_digit(s@[i as int]));
            }
            return None;
        }
        let d: u64 = (c as u32 as u64) - ('0' as u32 as u64);
        proof {
            let pre = s@.subrange(start as int, i as int);
            let post = s@.subrange(start as int, i + 1 as int);
            assert(post =~= pre.push(s@[i as int]));
            lemma_digits_val_push(pre, s@[i as int]);
            if too_big {
                lemma_digits_val_nonneg(pre);
            }
        }
        if !too_big {
            acc = acc * 10 + (d as u128);
            if acc > cap as u128 {
                too_big = true;
            }
        }
        i = i + 1;
    }
    proof {
        assert(s@.subrange(start as int, i as int) =~= s@.subrange(start as int, s@.len() as int));
    }
    if too_big {
        None
    } else {
        Some(acc as u64)
    }
}

/// Magnitude of the smallest `i32`, which is one more than `i32::MAX`.
const I32_MIN_MAGNITUDE: u64 = 2147483648;

/// Parses `s` the way `i32` does: an optional sign followed by decimal
/// digits, rejected when malformed or out of range.
pub fn parse_i32(s: &str) -> (r: Option<i32>)
    ensures
        r == spec_parse_i32(s@),
{
    let n = s.unicode_len();
    let mut start: usize = 0;
    let mut negative: bool = false;
    if n > 0 {
        let c0 = s.get_char(0);
        if c0 == '-' {
            negative = true;
            start = 1;
        } else if c0 == '+' {
            start = 1;
        }
    }
    proof {
        assert(s@.subrange(start as int, s@.len() as int) =~= int_body(s@));
    }
    match scan_digits(s, start, I32_MIN_MAGNITUDE) {
        None => {
            proof {
                if valid_int_str(s@) {
                    lemma_digits_val_nonneg(int_body(s@));
                }
            }
            None
        },
        Some(mag) => {
            proof {
                lemma_digits_val_nonneg(int_body(s@));
            }
            if negative {
                if mag == I32_MIN_MAGNITUDE {
                    Some(i32::MIN)
                } else {
                    Some(-(mag as i32))
                }
            } else {
                if mag == I32_MIN_MAGNITUDE {
                    None
                } else {
                    Some(mag as i32)
                }
            }
        },
    }
}

/// Parses `s` as a non-negative index the way `usize` does: an optional
/// plus followed by decimal digits, rejected when malformed or when the
/// value does not fit a `usize`.
pub fn parse_index(s: &str) -> (r: Option<usize>)
    ensures
        match r {
            Some(v) => valid_index_str(s@) && index_str_val(s@) == v,
            None => !valid_index_str(s@) || index_str_val(s@) > usize::MAX,
        },
{
    let n = s.unicode_len();
    let mut start: usize = 0;
    if n > 0 && s.get_char(0) == '+' {
        start = 1;
    }
    proof {
        assert(s@.subrange(start as int, s@.len() as int) =~= index_body(s@));
    }
    match scan_digits(s, start, usize::MAX as u64) {
        None => {
            proof {
                if valid_index_str(s@) {
                    lemma_digits_val_nonneg(index_body(s@));
                }
            }
            None
        },
        Some(v) => Some(v as usize),
    }
}

} // verus!
