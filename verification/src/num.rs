//! Decimal rendering and reading of unsigned integers.

use vstd::prelude::*;
use vstd::string::StringExecFns;

verus! {

/// The character for one decimal digit value.
pub open spec fn spec_digit_char(d: int) -> char {
    if d == 0 {
        '0'
    } else if d == 1 {
        '1'
    } else if d == 2 {
        '2'
    } else if d == 3 {
        '3'
    } else if d == 4 {
        '4'
    } else if d == 5 {
        '5'
    } else if d == 6 {
        '6'
    } else if d == 7 {
        '7'
    } else if d == 8 {
        '8'
    } else {
        '9'
    }
}

/// The decimal rendering of a nonnegative integer, most significant digit
/// first, with no sign and no leading zero except for zero itself.
pub open spec fn spec_dec_digits(n: int) -> Seq<char>
    decreases n,
{
    if n < 10 {
        seq![spec_digit_char(n)]
    } else {
        spec_dec_digits(n / 10).push(spec_digit_char(n % 10))
    }
}

fn digit_str(d: u64) -> (r: &'static str)
    requires
        d < 10,
    ensures
        r@ == seq![spec_digit_char(d as int)],
{
    proof {
        reveal_strlit("0");
        reveal_strlit("1");
        reveal_strlit("2");
        reveal_strlit("3");
        reveal_strlit("4");
        reveal_strlit("5");
        reveal_strlit("6");
        reveal_strlit("7");
        reveal_strlit("8");
        reveal_strlit("9");
    }
    let r: &'static str = if d == 0 {
        "0"
    } else if d == 1 {
        "1"
    } else if d == 2 {
        "2"
    } else if d == 3 {
        "3"
    } else if d == 4 {
        "4"
    } else if d == 5 {
        "5"
    } else if d == 6 {
        "6"
    } else if d == 7 {
        "7"
    } else if d == 8 {
        "8"
    } else {
        "9"
    };
    proof {
        assert(r@ =~= seq![spec_digit_char(d as int)]);
    }
    r
}

/// Renders an unsigned integer in decimal.
pub fn u64_to_string(n: u64) -> (s: String)
    ensures
        s@ == spec_dec_digits(n as int),
    decreases n,
{
    if n < 10 {
        String::from_str(digit_str(n))
    } else {
        let prefix = u64_to_string(n / 10);
        let s = prefix.concat(digit_str(n % 10));
        proof {
            assert(s@ =~= spec_dec_digits(n as int));
        }
        s
    }
}

/// Whether a character is a decimal digit.
pub open spec fn is_digit(c: char) -> bool {
    '0' <= c && c <= '9'
}

/// The value of one decimal digit character.
pub open spec fn spec_digit_val(c: char) -> int {
    c as int - '0' as int
}

/// Folds the decimal digits of `s` from position `i` on into a value on top
/// of `acc`; `None` when a non-digit occurs or the value leaves `u32`.
pub open spec fn spec_fold_digits(s: Seq<char>, i: int, acc: u32) -> Option<u32>
    decreases s.len() - i,
{
    if i < 0 || i >= s.len() {
        Some(acc)
    } else if !is_digit(s[i]) {
        None
    } else if acc as int * 10 + spec_digit_val(s[i]) > u32::MAX {
        None
    } else {
        spec_fold_digits(s, i + 1, (acc as int * 10 + spec_digit_val(s[i])) as u32)
    }
}

/// The `u32` a string denotes in decimal: at least one digit, digits only,
/// value within `u32`. Leading zeros are accepted.
pub open spec fn spec_str_u32(s: Seq<char>) -> Option<u32> {
    if s.len() == 0 {
        None
    } else {
        spec_fold_digits(s, 0, 0)
    }
}

fn fold_digits(s: &str, i: usize, acc: u32) -> (r: Option<u32>)
    requires
        i <= s@.len(),
    ensures
        r == spec_fold_digits(s@, i as int, acc),
    decreases s@.len() - i,
{
    if i == s.unicode_len() {
        Some(acc)
    } else {
        let c = s.get_char(i);
        if c < '0' || c > '9' {
            None
        } else {
            let d: u32 = (c as u32) - ('0' as u32);
            if acc > (u32::MAX - d) / 10 {
                None
            } else {
                fold_digits(s, i + 1, acc * 10 + d)
            }
        }
    }
}

/// Reads a whole string as a decimal `u32`, as the command line's numeric
/// option values are read.
pub fn str_to_u32(s: &str) -> (r: Option<u32>)
    ensures
        r == spec_str_u32(s@),
{
    if s.unicode_len() == 0 {
        None
    } else {
        fold_digits(s, 0, 0)
    }
}

} // verus!
