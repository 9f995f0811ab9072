//! Verified text helpers: decimal-digit rendering of unsigned and signed
//! integers, and ASCII case-insensitive string comparison.

use vstd::prelude::*;
use vstd::string::StrSliceExecFns;
use vstd::string::StringExecFns;

verus! {

/// The digit character for one value below ten.
pub open spec fn digit_char(d: nat) -> char {
    if d == 0 {
        '0'
    } else if d == 1 {
        '1'
    } else if d == 2 {
        '2'
    } else if d == 3 {
        '3'
    } else if d == 4 {
        '4'
    } else if d == 5 {
        '5'
    } else if d == 6 {
        '6'
    } else if d == 7 {
        '7'
    } else if d == 8 {
        '8'
    } else {
        '9'
    }
}

/// The usual decimal rendering of a natural number: no leading zeros,
/// and a single `'0'` for zero.
pub open spec fn spec_digits(n: nat) -> Seq<char>
    decreases n,
{
    if n < 10 {
        seq![digit_char(n)]
    } else {
        spec_digits(n / 10).push(digit_char(n % 10))
    }
}

/// The last `width` decimal digits of `n`, left-padded with zeros.
pub open spec fn spec_padded(n: nat, width: nat) -> Seq<char>
    decreases width,
{
    if width == 0 {
        Seq::empty()
    } else {
        spec_padded(n / 10, (width - 1) as nat).push(digit_char(n % 10))
    }
}

/// The decimal rendering of an integer: a minus sign for negatives,
/// then the digits of the magnitude.
pub open spec fn spec_int_digits(n: int) -> Seq<char> {
    if n < 0 {
        seq!['-'] + spec_digits((-n) as nat)
    } else {
        spec_digits(n as nat)
    }
}

/// A one-character string for one digit value.
fn digit_str(d: u128) -> (r: &'static str)
    requires
        d < 10,
    ensures
        r@ == seq![digit_char(d as nat)],
{
    proof {
        reveal_strlit("0");
        reveal_strlit("1");
        reveal_strlit("2");
        reveal_strlit("3");
        reveal_strlit("4");
        reveal_strlit("5");
        reveal_strlit("6");
        reveal_strlit("7");
        reveal_strlit("8");
        reveal_strlit("9");
    }
    let r: &'static str = if d == 0 {
        "0"
    } else if d == 1 {
        "1"
    } else if d == 2 {
        "2"
    } else if d == 3 {
        "3"
    } else if d == 4 {
        "4"
    } else if d == 5 {
        "5"
    } else if d == 6 {
        "6"
    } else if d == 7 {
        "7"
    } else if d == 8 {
        "8"
    } else {
        "9"
    };
    proof {
        assert(r@ =~= seq![digit_char(d as nat)]);
    }
    r
}

/// Renders a natural number in decimal.
pub fn u128_digits(n: u128) -> (r: String)
    ensures
        r@ == spec_digits(n as nat),
    decreases n,
{
    if n < 10 {
        digit_str(n).to_owned()
    } else {
        let r = u128_digits(n / 10).concat(digit_str(n % 10));
        proof {
            assert(spec_digits((n / 10) as nat).push(digit_char((n % 10) as nat)) =~= spec_digits(
                (n / 10) as nat,
            ) + seq![digit_char((n % 10) as nat)]);
        }
        r
    }
}

/// Renders the last `width` decimal digits of `n`, left-padded with zeros.
pub fn u128_padded(n: u128, width: u32) -> (r: String)
    ensures
        r@ == spec_padded(n as nat, width as nat),
    decreases width,
{
    if width == 0 {
        String::new()
    } else {
        let r = u128_padded(n / 10, width - 1).concat(digit_str(n % 10));
        proof {
            assert(spec_padded((n / 10) as nat, (width - 1) as nat).push(
                digit_char((n % 10) as nat),
            ) =~= spec_padded((n / 10) as nat, (width - 1) as nat) + seq![
                digit_char((n % 10) as nat),
            ]);
        }
        r
    }
}

/// Renders a signed integer in decimal.
pub fn i64_digits(n: i64) -> (r: String)
    ensures
        r@ == spec_int_digits(n as int),
{
    if n < 0 {
        let wide: i128 = n as i128;
        let mag: u128 = (-wide) as u128;
        let r = "-".to_owned().concat(u128_digits(mag).as_str());
        proof {
            reveal_strlit("-");
            assert(r@ =~= seq!['-'] + spec_digits(mag as nat));
        }
        r
    } else {
        u128_digits(n as u128)
    }
}

/// Two characters are equal up to ASCII case.
pub open spec fn char_eq_nocase(a: char, b: char) -> bool {
    ||| a == b
    ||| (65 <= a as int <= 90 && b as int == a as int + 32)
    ||| (97 <= a as int <= 122 && b as int == a as int - 32)
}

/// Two character sequences are equal up to ASCII case.
pub open spec fn str_eq_nocase(a: Seq<char>, b: Seq<char>) -> bool {
    a.len() == b.len() && forall|i: int| 0 <= i < a.len() ==> char_eq_nocase(a[i], b[i])
}

/// Compares two strings ignoring ASCII case.
pub fn eq_nocase(a: &str, b: &str) -> (r: bool)
    ensures
        r == str_eq_nocase(a@, b@),
{
    let alen = a.unicode_len();
    let blen = b.unicode_len();
    if alen != blen {
        return false;
    }
    let mut i: usize = 0;
    while i < alen
        invariant
            a@.len() == alen,
            b@.len() == alen,
            i <= alen,
            forall|j: int| 0 <= j < i ==> char_eq_nocase(a@[j], b@[j]),
        decreases alen - i,
    {
        let ca = a.get_char(i) as u32;
        let cb = b.get_char(i) as u32;
        let same = ca == cb || (65 <= ca && ca <= 90 && cb == ca + 32) || (97 <= ca && ca <= 122
            && cb == ca - 32);
        if !same {
            return false;
        }
        i += 1;
    }
    true
}

} // verus!
