//! Decimal text for fixed-point readings and for whole numbers.

use vstd::prelude::*;
use vstd::string::*;
use crate::analyzer::reading::Reading;
use crate::analyzer::subscores::abs_int;

verus! {

/// The character of one decimal digit.
pub open spec fn digit_char(d: int) -> char {
    if d == 0 {
        '0'
    } else if d == 1 {
        '1'
    } else if d == 2 {
        '2'
    } else if d == 3 {
        '3'
    } else if d == 4 {
        '4'
    } else if d == 5 {
        '5'
    } else if d == 6 {
        '6'
    } else if d == 7 {
        '7'
    } else if d == 8 {
        '8'
    } else {
        '9'
    }
}

/// The decimal digits of `n`, most significant first, without leading zeros.
pub open spec fn decimal_digits(n: nat) -> Seq<char>
    decreases n,
{
    if n < 10 {
        seq![digit_char(n as int)]
    } else {
        decimal_digits(n / 10).push(digit_char((n % 10) as int))
    }
}

/// How many decimal places a reading is shown with.
#[derive(Debug, Clone, Copy, PartialEq, Eq, Structural)]
pub enum Precision {
    Tenths,
    Hundredths,
}

impl Precision {
    /// Millionths per shown step.
    pub open spec fn step(self) -> int {
        match self {
            Precision::Tenths => 100_000,
            Precision::Hundredths => 10_000,
        }
    }

    /// Shown steps per unit.
    pub open spec fn per_unit(self) -> int {
        match self {
            Precision::Tenths => 10,
            Precision::Hundredths => 100,
        }
    }

    /// The digits after the decimal point for a fraction of `steps` steps.
    pub open spec fn fraction_digits(self, steps: int) -> Seq<char> {
        match self {
            Precision::Tenths => seq![digit_char(steps)],
            Precision::Hundredths => seq![digit_char(steps / 10), digit_char(steps % 10)],
        }
    }
}

/// `micros` in shown steps, rounded to the nearest step, halves away from zero.
pub open spec fn rounded_steps(micros: int, precision: Precision) -> int {
    if micros >= 0 {
        (micros + precision.step() / 2) / precision.step()
    } else {
        -((-micros + precision.step() / 2) / precision.step())
    }
}

/// A finite reading as decimal text: a minus sign where the rounded value is
/// negative, the whole part, a point, and one or two decimals.
pub open spec fn fixed_text(micros: int, precision: Precision) -> Seq<char> {
    let steps = rounded_steps(micros, precision);
    let magnitude = abs_int(steps);
    (if steps < 0 {
        seq!['-']
    } else {
        Seq::<char>::empty()
    }) + decimal_digits((magnitude / precision.per_unit()) as nat) + seq!['.']
        + precision.fraction_digits(magnitude % precision.per_unit())
}

/// A reading as text; the infinities read `inf` and `-inf`.
pub open spec fn reading_text(reading: Reading, precision: Precision) -> Seq<char> {
    match reading {
        Reading::NegInfinity => "-inf"@,
        Reading::PosInfinity => "inf"@,
        Reading::Finite(v) => fixed_text(v as int, precision),
    }
}

fn digit_text(d: u64) -> (text: &'static str)
    requires
        d < 10,
    ensures
        text@ == seq![digit_char(d as int)],
{
    proof {
        reveal_strlit("0");
        reveal_strlit("1");
        reveal_strlit("2");
        reveal_strlit("3");
        reveal_strlit("4");
        reveal_strlit("5");
        reveal_strlit("6");
        reveal_strlit("7");
        reveal_strlit("8");
        reveal_strlit("9");
    }
    let text = if d == 0 {
        "0"
    } else if d == 1 {
        "1"
    } else if d == 2 {
        "2"
    } else if d == 3 {
        "3"
    } else if d == 4 {
        "4"
    } else if d == 5 {
        "5"
    } else if d == 6 {
        "6"
    } else if d == 7 {
        "7"
    } else if d == 8 {
        "8"
    } else {
        "9"
    };
    assert(text@ =~= seq![digit_char(d as int)]);
    text
}

/// Appends the decimal digits of `n` to `out`.
pub fn push_decimal(out: &mut String, n: u64)
    ensures
        final(out)@ == old(out)@ + decimal_digits(n as nat),
    decreases n,
{
    if n >= 10 {
        push_decimal(out, n / 10);
    }
    out.append(digit_text(n % 10));
    assert(final(out)@ =~= old(out)@ + decimal_digits(n as nat));
}

/// Appends a reading as decimal text to `out`.
pub fn push_reading(out: &mut String, reading: Reading, precision: Precision)
    ensures
        final(out)@ == old(out)@ + reading_text(reading, precision),
{
    let micros: i64 = match reading {
        Reading::NegInfinity => {
            out.append("-inf");
            return ;
        },
        Reading::PosInfinity => {
            out.append("inf");
            return ;
        },
        Reading::Finite(v) => v,
    };
    let step: i128 = match precision {
        Precision::Tenths => 100_000,
        Precision::Hundredths => 10_000,
    };
    let per_unit: u64 = match precision {
        Precision::Tenths => 10,
        Precision::Hundredths => 100,
    };
    let magnitude: i128 = if micros < 0 {
        -(micros as i128)
    } else {
        micros as i128
    };
    let steps: u64 = ((magnitude + step / 2) / step) as u64;
    assert(steps == abs_int(rounded_steps(micros as int, precision)));
    let ghost before = out@;
    if micros < 0 && steps > 0 {
        out.append("-");
    }
    proof {
        reveal_strlit("-");
        reveal_strlit(".");
        assert("-"@ =~= seq!['-']);
        assert("."@ =~= seq!['.']);
    }
    push_decimal(out, steps / per_unit);
    out.append(".");
    let fraction: u64 = steps % per_unit;
    match precision {
        Precision::Tenths => {
            out.append(digit_text(fraction));
        },
        Precision::Hundredths => {
            out.append(digit_text(fraction / 10));
            out.append(digit_text(fraction % 10));
        },
    }
    assert(out@ =~= before + fixed_text(micros as int, precision));
}

} // verus!
