//! Exact decimal prices.
//!
//! A price is a scaled integer `m * 10^-s` with a 96-bit mantissa and a scale
//! of at most 28, the shape in which the storage and parsing layers deliver
//! decimals. Comparison and rendering are verified against the mathematical
//! value; only the string-to-decimal conversion itself is delegated to an
//! outside parser.

use vstd::prelude::*;
use vstd::arithmetic::power::{pow, lemma_pow0, lemma_pow1, lemma_pow_positive, lemma_pow_adds,
    lemma_pow_increases};
use vstd::string::StringExecFns;
use crate::errors::AppError;
use crate::text::{spec_digits, spec_padded, u128_digits, u128_padded};

verus! {

/// Largest mantissa magnitude a price can carry: `2^96 - 1`.
pub const MAX_MANTISSA: i128 = 79228162514264337593543950335;

/// Largest scale a price can carry.
pub const MAX_SCALE: u32 = 28;

/// `10^e`.
pub open spec fn pow10(e: nat) -> int {
    pow(10, e)
}

/// An exact decimal number `m * 10^-s`.
#[derive(Clone, Copy, Debug, PartialEq, Eq, Structural)]
pub struct Dec {
    /// Signed mantissa.
    pub m: i128,
    /// Number of fractional digits.
    pub s: u32,
}

impl Dec {
    /// A representable price: bounded scale and 96-bit mantissa.
    pub open spec fn wf(self) -> bool {
        &&& self.s <= MAX_SCALE
        &&& -(MAX_MANTISSA as int) <= self.m as int <= MAX_MANTISSA as int
    }

    /// The mathematical value, expressed in units of `10^-28` so that any two
    /// representable prices live on one integer grid.
    pub open spec fn val(self) -> int {
        self.m as int * pow10((MAX_SCALE - self.s) as nat)
    }

    /// Builds a decimal from a mantissa and scale, rejecting values outside
    /// the representable range.
    pub fn new(m: i128, s: u32) -> (r: Option<Dec>)
        ensures
            (r is Some) == (s <= MAX_SCALE && -(MAX_MANTISSA as int) <= m as int <= MAX_MANTISSA
                as int),
            r matches Some(d) ==> d == (Dec { m, s }) && d.wf(),
    {
        if s <= MAX_SCALE && -MAX_MANTISSA <= m && m <= MAX_MANTISSA {
            Some(Dec { m, s })
        } else {
            None
        }
    }
}

/// Result of comparing two decimals by value.
#[derive(Clone, Copy, Debug, PartialEq, Eq, Structural)]
pub enum Cmp {
    Lt,
    Eq,
    Gt,
}

proof fn lemma_pow10_step(e: nat)
    ensures
        pow10(e + 1) == 10 * pow10(e),
{
    lemma_pow_adds(10, e, 1);
    lemma_pow1(10);
}

proof fn lemma_pow10_28()
    ensures
        pow10(27) == 1000000000000000000000000000int,
        pow10(28) == 10000000000000000000000000000int,
{
    lemma_pow0(10);
    lemma_pow10_step(0);
    lemma_pow10_step(1);
    lemma_pow10_step(2);
    lemma_pow10_step(3);
    lemma_pow10_step(4);
    lemma_pow10_step(5);
    lemma_pow10_step(6);
    lemma_pow10_step(7);
    lemma_pow10_step(8);
    lemma_pow10_step(9);
    lemma_pow10_step(10);
    lemma_pow10_step(11);
    lemma_pow10_step(12);
    lemma_pow10_step(13);
    lemma_pow10_step(14);
    lemma_pow10_step(15);
    lemma_pow10_step(16);
    lemma_pow10_step(17);
    lemma_pow10_step(18);
    lemma_pow10_step(19);
    lemma_pow10_step(20);
    lemma_pow10_step(21);
    lemma_pow10_step(22);
    lemma_pow10_step(23);
    lemma_pow10_step(24);
    lemma_pow10_step(25);
    lemma_pow10_step(26);
    lemma_pow10_step(27);
}

/// `10^e` as a machine integer.
fn pow10_u128(e: u32) -> (r: u128)
    requires
        e <= MAX_SCALE,
    ensures
        r as int == pow10(e as nat),
        r >= 1,
{
    proof {
        lemma_pow0(10);
    }
    let mut acc: u128 = 1;
    let mut i: u32 = 0;
    while i < e
        invariant
            i <= e <= 28,
            acc as int == pow10(i as nat),
            acc >= 1,
        decreases e - i,
    {
        proof {
            lemma_pow10_28();
            lemma_pow10_step(i as nat);
            lemma_pow_increases(10, i as nat, 27);
        }
        acc = acc * 10;
        i = i + 1;
    }
    proof {
        lemma_pow_positive(10, e as nat);
    }
    acc
}

/// Compares `x * 10^ds` with `y` without ever overflowing: as soon as the
/// scaled magnitude exceeds every representable mantissa it must exceed `y`.
fn cmp_mag_scaled(x: u128, ds: u32, y: u128) -> (r: Cmp)
    requires
        ds <= MAX_SCALE,
        1 <= x <= MAX_MANTISSA as u128,
        1 <= y <= MAX_MANTISSA as u128,
    ensures
        (r == Cmp::Lt <==> x as int * pow10(ds as nat) < y as int),
        (r == Cmp::Eq <==> x as int * pow10(ds as nat) == y as int),
        (r == Cmp::Gt <==> x as int * pow10(ds as nat) > y as int),
{
    let mut acc: u128 = x;
    let mut i: u32 = 0;
    proof {
        lemma_pow0(10);
    }
    while i < ds
        invariant
            i <= ds <= 28,
            1 <= x <= MAX_MANTISSA as u128,
            1 <= y <= MAX_MANTISSA as u128,
            acc as int == x as int * pow10(i as nat),
            acc >= 1,
        decreases ds - i,
    {
        if acc > MAX_MANTISSA as u128 {
            proof {
                lemma_pow_adds(10, i as nat, (ds - i) as nat);
                lemma_pow_positive(10, (ds - i) as nat);
                assert(x as int * pow10(ds as nat) == acc as int * pow10((ds - i) as nat))
                    by (nonlinear_arith)
                    requires
                        acc as int == x as int * pow10(i as nat),
                        pow10(ds as nat) == pow10(i as nat) * pow10((ds - i) as nat),
                ;
                assert(acc as int * pow10((ds - i) as nat) >= acc as int) by (nonlinear_arith)
                    requires
                        acc >= 1,
                        pow10((ds - i) as nat) >= 1,
                ;
            }
            return Cmp::Gt;
        }
        proof {
            lemma_pow10_step(i as nat);
            assert(x as int * (10 * pow10(i as nat)) == (x as int * pow10(i as nat)) * 10)
                by (nonlinear_arith);
        }
        acc = acc * 10;
        i = i + 1;
    }
    if acc < y {
        Cmp::Lt
    } else if acc == y {
        Cmp::Eq
    } else {
        Cmp::Gt
    }
}

/// The opposite ordering.
fn flip(c: Cmp) -> (r: Cmp)
    ensures
        r == Cmp::Lt <==> c == Cmp::Gt,
        r == Cmp::Eq <==> c == Cmp::Eq,
        r == Cmp::Gt <==> c == Cmp::Lt,
{
    match c {
        Cmp::Lt => Cmp::Gt,
        Cmp::Eq => Cmp::Eq,
        Cmp::Gt => Cmp::Lt,
    }
}

/// Compares two decimals by mathematical value, across differing scales.
pub fn cmp_dec(a: Dec, b: Dec) -> (r: Cmp)
    requires
        a.wf(),
        b.wf(),
    ensures
        (r == Cmp::Lt <==> a.val() < b.val()),
        (r == Cmp::Eq <==> a.val() == b.val()),
        (r == Cmp::Gt <==> a.val() > b.val()),
{
    proof {
        lemma_pow_positive(10, (MAX_SCALE - a.s) as nat);
        lemma_pow_positive(10, (MAX_SCALE - b.s) as nat);
        let pa = pow10((MAX_SCALE - a.s) as nat);
        let pb = pow10((MAX_SCALE - b.s) as nat);
        assert(a.m > 0 ==> a.val() > 0) by (nonlinear_arith)
            requires
                pa > 0,
                a.val() == a.m as int * pa,
        ;
        assert(a.m == 0 ==> a.val() == 0) by (nonlinear_arith)
            requires
                a.val() == a.m as int * pa,
        ;
        assert(a.m < 0 ==> a.val() < 0) by (nonlinear_arith)
            requires
                pa > 0,
                a.val() == a.m as int * pa,
        ;
        assert(b.m > 0 ==> b.val() > 0) by (nonlinear_arith)
            requires
                pb > 0,
                b.val() == b.m as int * pb,
        ;
        assert(b.m == 0 ==> b.val() == 0) by (nonlinear_arith)
            requires
                b.val() == b.m as int * pb,
        ;
        assert(b.m < 0 ==> b.val() < 0) by (nonlinear_arith)
            requires
                pb > 0,
                b.val() == b.m as int * pb,
        ;
    }
    if a.m == 0 && b.m == 0 {
        Cmp::Eq
    } else if a.m <= 0 && b.m > 0 {
        Cmp::Lt
    } else if a.m < 0 && b.m >= 0 {
        Cmp::Lt
    } else if a.m >= 0 && b.m < 0 {
        Cmp::Gt
    } else if a.m > 0 && b.m <= 0 {
        Cmp::Gt
    } else {
        // same nonzero sign
        let neg = a.m < 0;
        let ma: u128 = if a.m < 0 {
            (-a.m) as u128
        } else {
            a.m as u128
        };
        let mb: u128 = if b.m < 0 {
            (-b.m) as u128
        } else {
            b.m as u128
        };
        let c = if a.s <= b.s {
            let c0 = cmp_mag_scaled(ma, b.s - a.s, mb);
            proof {
                lemma_mag_reduction(ma as int, a.s, mb as int, b.s);
            }
            c0
        } else {
            let c0 = flip(cmp_mag_scaled(mb, a.s - b.s, ma));
            proof {
                lemma_mag_reduction(mb as int, b.s, ma as int, a.s);
            }
            c0
        };
        proof {
            let pa = pow10((MAX_SCALE - a.s) as nat);
            let pb = pow10((MAX_SCALE - b.s) as nat);
            if neg {
                assert(a.val() == -(ma as int * pa) && b.val() == -(mb as int * pb))
                    by (nonlinear_arith)
                    requires
                        a.val() == a.m as int * pa,
                        b.val() == b.m as int * pb,
                        a.m < 0,
                        b.m < 0,
                        ma as int == -(a.m as int),
                        mb as int == -(b.m as int),
                ;
            }
        }
        if neg {
            flip(c)
        } else {
            c
        }
    }
}

/// Comparing magnitudes scaled to the common grid is the same as comparing
/// the smaller-scale magnitude multiplied up to the larger scale.
proof fn lemma_mag_reduction(ma: int, sa: u32, mb: int, sb: u32)
    requires
        sa <= sb <= MAX_SCALE,
        ma >= 0,
        mb >= 0,
    ensures
        (ma * pow10((MAX_SCALE - sa) as nat) < mb * pow10((MAX_SCALE - sb) as nat) <==> ma * pow10(
            (sb - sa) as nat,
        ) < mb),
        (ma * pow10((MAX_SCALE - sa) as nat) == mb * pow10((MAX_SCALE - sb) as nat) <==> ma
            * pow10((sb - sa) as nat) == mb),
{
    let p = pow10((MAX_SCALE - sb) as nat);
    let d = pow10((sb - sa) as nat);
    lemma_pow_positive(10, (MAX_SCALE - sb) as nat);
    lemma_pow_positive(10, (sb - sa) as nat);
    lemma_pow_adds(10, (sb - sa) as nat, (MAX_SCALE - sb) as nat);
    assert(pow10((MAX_SCALE - sa) as nat) == d * p);
    assert(ma * (d * p) == (ma * d) * p) by (nonlinear_arith);
    assert((ma * d < mb <==> (ma * d) * p < mb * p) && (ma * d == mb <==> (ma * d) * p == mb * p))
        by (nonlinear_arith)
        requires
            p > 0,
    ;
}

/// The canonical text of a decimal: optional minus sign, the integer part,
/// and, when the scale is positive, a point followed by exactly `s`
/// fractional digits.
pub open spec fn spec_render(d: Dec) -> Seq<char> {
    let mag = if d.m < 0 {
        -(d.m as int)
    } else {
        d.m as int
    };
    let sign: Seq<char> = if d.m < 0 {
        seq!['-']
    } else {
        Seq::empty()
    };
    if d.s == 0 {
        sign + spec_digits(mag as nat)
    } else {
        sign + spec_digits((mag / pow10(d.s as nat)) as nat) + seq!['.'] + spec_padded(
            (mag % pow10(d.s as nat)) as nat,
            d.s as nat,
        )
    }
}

impl Dec {
    /// Renders the decimal exactly as the original scale dictates,
    /// keeping trailing zeros: mantissa 1050 at scale 2 prints as `10.50`.
    pub fn render(&self) -> (r: String)
        requires
            self.wf(),
        ensures
            r@ == spec_render(*self),
    {
        let mag: u128 = if self.m < 0 {
            (-self.m) as u128
        } else {
            self.m as u128
        };
        if self.s == 0 {
            let digits = u128_digits(mag);
            if self.m < 0 {
                let r = "-".to_owned().concat(digits.as_str());
                proof {
                    reveal_strlit("-");
                    assert(r@ =~= spec_render(*self));
                }
                r
            } else {
                proof {
                    assert(digits@ =~= spec_render(*self));
                }
                digits
            }
        } else {
            let p = pow10_u128(self.s);
            let ip = mag / p;
            let fp = mag % p;
            let start: String = if self.m < 0 {
                "-".to_owned()
            } else {
                String::new()
            };
            let r = start.concat(u128_digits(ip).as_str()).concat(".").concat(
                u128_padded(fp, self.s).as_str(),
            );
            proof {
                reveal_strlit("-");
                reveal_strlit(".");
                assert("."@ =~= seq!['.']);
                assert(r@ =~= spec_render(*self));
            }
            r
        }
    }
}

/// The decimal value that the outside parser reads from a string, if any:
/// its mantissa and scale, a function of the characters alone.
pub uninterp spec fn decimal_of(s: Seq<char>) -> Option<(i128, u32)>;

/// Relies on rust_decimal's `Decimal::from_str`: whether a string parses,
/// and the mantissa and scale of the value it parses to, depend on the
/// characters alone; any parsed value carries a scale of at most 28 and a
/// 96-bit mantissa.
#[verifier::external_body]
fn parse_decimal_raw(s: &str) -> (r: Result<Dec, String>)
    ensures
        (r is Ok) == (decimal_of(s@) is Some),
        r matches Ok(d) ==> (decimal_of(s@) == Some((d.m, d.s)) && d.wf()),
{
    match <rust_decimal::Decimal as core::str::FromStr>::from_str(s) {
        Ok(d) => Ok(Dec { m: d.mantissa(), s: d.scale() }),
        Err(e) => Err(e.to_string()),
    }
}

impl Dec {
    /// Parses decimal text such as a captured price, reporting a syntactically
    /// invalid number as a parse error.
    pub fn parse(s: &str) -> (r: Result<Dec, AppError>)
        ensures
            decimal_of(s@) matches Some(p) ==> (r matches Ok(d) && (d.m, d.s) == p && d.wf()),
            decimal_of(s@) is None ==> (r matches Err(e) && e is ParseError),
    {
        match parse_decimal_raw(s) {
            Ok(d) => Ok(d),
            Err(m) => Err(AppError::ParseError(m)),
        }
    }
}

} // verus!
