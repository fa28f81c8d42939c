//! Decimal fixed-point numbers and their text form.

use vstd::prelude::*;
use vstd::string::*;

verus! {

/// Number of grid steps in one unit: every number has six decimal places.
pub const SCALE: i64 = 1_000_000;

/// A number on the decimal grid, held as a count of millionths.
#[derive(Clone, Copy, Debug, PartialEq, Eq, Structural)]
pub struct Decimal {
    pub micros: i64,
}

/// The character of one decimal digit.
pub open spec fn digit_char(d: int) -> char {
    if d == 0 {
        '0'
    } else if d == 1 {
        '1'
    } else if d == 2 {
        '2'
    } else if d == 3 {
        '3'
    } else if d == 4 {
        '4'
    } else if d == 5 {
        '5'
    } else if d == 6 {
        '6'
    } else if d == 7 {
        '7'
    } else if d == 8 {
        '8'
    } else {
        '9'
    }
}

/// Decimal digits of a natural number, most significant first, without leading zeros.
pub open spec fn nat_text(n: nat) -> Seq<char>
    decreases n,
{
    if n < 10 {
        seq![digit_char(n as int)]
    } else {
        nat_text(n / 10).push(digit_char((n % 10) as int))
    }
}

/// Digits of the fraction `f / (10 * place)`, stopping where only zeros would follow.
pub open spec fn frac_text(f: nat, place: nat) -> Seq<char>
    decreases place,
{
    if f == 0 || place == 0 {
        Seq::<char>::empty()
    } else {
        seq![digit_char((f / place) as int)] + frac_text(f % place, place / 10)
    }
}

/// Text of a magnitude given in millionths: the whole part, then, only where the
/// fraction is not zero, a point and the fraction's digits without trailing zeros.
pub open spec fn magnitude_text(m: nat) -> Seq<char> {
    let whole = nat_text(m / (SCALE as nat));
    let f = m % (SCALE as nat);
    if f == 0 {
        whole
    } else {
        whole + seq!['.'] + frac_text(f, (SCALE / 10) as nat)
    }
}

/// Text of a number: a minus sign for negative values, then the magnitude.
pub open spec fn decimal_text(v: Decimal) -> Seq<char> {
    if v.micros < 0 {
        seq!['-'] + magnitude_text((-v.micros) as nat)
    } else {
        magnitude_text(v.micros as nat)
    }
}

fn digit_str(d: u64) -> (s: &'static str)
    requires
        d < 10,
    ensures
        s@ == seq![digit_char(d as int)],
{
    proof {
        reveal_strlit("0");
        reveal_strlit("1");
        reveal_strlit("2");
        reveal_strlit("3");
        reveal_strlit("4");
        reveal_strlit("5");
        reveal_strlit("6");
        reveal_strlit("7");
        reveal_strlit("8");
        reveal_strlit("9");
    }
    let s = if d == 0 {
        "0"
    } else if d == 1 {
        "1"
    } else if d == 2 {
        "2"
    } else if d == 3 {
        "3"
    } else if d == 4 {
        "4"
    } else if d == 5 {
        "5"
    } else if d == 6 {
        "6"
    } else if d == 7 {
        "7"
    } else if d == 8 {
        "8"
    } else {
        "9"
    };
    assert(s@ =~= seq![digit_char(d as int)]);
    s
}

fn push_nat(out: &mut String, n: u64)
    ensures
        final(out)@ == old(out)@ + nat_text(n as nat),
    decreases n,
{
    if n >= 10 {
        push_nat(out, n / 10);
    }
    out.append(digit_str(n % 10));
    assert(final(out)@ =~= old(out)@ + nat_text(n as nat));
}

fn push_frac(out: &mut String, f: u64)
    requires
        f < 1_000_000,
    ensures
        final(out)@ == old(out)@ + frac_text(f as nat, 100_000),
{
    let mut rest: u64 = f;
    let mut place: u64 = 100_000;
    while rest != 0
        invariant
            rest == 0 || rest < 10 * place,
            place == 100_000 || place == 10_000 || place == 1_000 || place == 100 || place == 10
                || place == 1 || (place == 0 && rest == 0),
            out@ + frac_text(rest as nat, place as nat) == old(out)@ + frac_text(f as nat, 100_000),
        decreases place,
    {
        let ghost before = out@;
        let ghost rest0 = rest as nat;
        let ghost place0 = place as nat;
        out.append(digit_str(rest / place));
        rest = rest % place;
        place = place / 10;
        assert(out@ + frac_text(rest as nat, place as nat) =~= before + frac_text(rest0, place0));
    }
}

impl Decimal {
    /// The number `units`, with no fraction.
    pub fn from_int(units: i32) -> (d: Decimal)
        ensures
            d.micros == units * SCALE,
    {
        Decimal { micros: (units as i64) * SCALE }
    }

    /// The number of `micros` millionths.
    pub fn from_micros(micros: i64) -> (d: Decimal)
        ensures
            d.micros == micros,
    {
        Decimal { micros }
    }

    /// Appends the number's text to `out`.
    pub fn write_to(&self, out: &mut String)
        ensures
            final(out)@ == old(out)@ + decimal_text(*self),
    {
        let magnitude: u64 = if self.micros < 0 {
            out.append("-");
            proof {
                reveal_strlit("-");
            }
            (-(self.micros as i128)) as u64
        } else {
            self.micros as u64
        };
        let ghost signed = out@;
        push_nat(out, magnitude / 1_000_000);
        let f: u64 = magnitude % 1_000_000;
        if f != 0 {
            out.append(".");
            proof {
                reveal_strlit(".");
            }
            push_frac(out, f);
        }
        assert(out@ =~= signed + magnitude_text(magnitude as nat));
        assert(final(out)@ =~= old(out)@ + decimal_text(*self));
    }

    /// The number's text.
    pub fn to_text(&self) -> (s: String)
        ensures
            s@ == decimal_text(*self),
    {
        let mut s = String::new();
        self.write_to(&mut s);
        s
    }
}

} // verus!
