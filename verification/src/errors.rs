//! Typed failure values shared by every operation of the estimator, with a
//! verified renderer for their human-readable text.

use vstd::prelude::*;

verus! {

/// Everything that can go wrong while training or predicting.
///
/// `DimensionMismatch` reports a shape-contract violation, `EmptyData` a
/// training set with zero rows, and `NumericalError` a divergence detected
/// while training (infinite or not-a-number residuals).
#[derive(Debug)]
pub enum LinearRegressionError {
    DimensionMismatch {
        expected: usize,
        found: usize,
        context: &'static str,
    },
    EmptyData,
    NumericalError(&'static str),
}

/// The character for one decimal digit.
pub open spec fn digit_char(d: nat) -> char {
    if d == 0 {
        '0'
    } else if d == 1 {
        '1'
    } else if d == 2 {
        '2'
    } else if d == 3 {
        '3'
    } else if d == 4 {
        '4'
    } else if d == 5 {
        '5'
    } else if d == 6 {
        '6'
    } else if d == 7 {
        '7'
    } else if d == 8 {
        '8'
    } else {
        '9'
    }
}

/// The decimal numeral of `n`, most significant digit first, with no
/// leading zeros (`0` itself renders as a single digit).
pub open spec fn decimal_digits(n: nat) -> Seq<char>
    decreases n,
{
    if n < 10 {
        seq![digit_char(n)]
    } else {
        decimal_digits(n / 10).push(digit_char(n % 10))
    }
}

/// The single-character string for one decimal digit.
fn digit_str(d: usize) -> (r: &'static str)
    requires
        d < 10,
    ensures
        r@ == seq![digit_char(d as nat)],
{
    let r: &'static str = if d == 0 {
        "0"
    } else if d == 1 {
        "1"
    } else if d == 2 {
        "2"
    } else if d == 3 {
        "3"
    } else if d == 4 {
        "4"
    } else if d == 5 {
        "5"
    } else if d == 6 {
        "6"
    } else if d == 7 {
        "7"
    } else if d == 8 {
        "8"
    } else {
        "9"
    };
    proof {
        reveal_strlit("0");
        reveal_strlit("1");
        reveal_strlit("2");
        reveal_strlit("3");
        reveal_strlit("4");
        reveal_strlit("5");
        reveal_strlit("6");
        reveal_strlit("7");
        reveal_strlit("8");
        reveal_strlit("9");
        assert(r@ =~= seq![digit_char(d as nat)]);
    }
    r
}

/// Appends the decimal numeral of `n` to `out`.
fn push_decimal(n: usize, out: &mut String)
    ensures
        final(out)@ == old(out)@ + decimal_digits(n as nat),
    decreases n,
{
    let ghost prefix = out@;
    if n >= 10 {
        push_decimal(n / 10, out);
    }
    let d: usize = n % 10;
    out.append(digit_str(d));
    proof {
        assert(out@ =~= prefix + decimal_digits(n as nat));
    }
}

impl LinearRegressionError {
    /// The text that `message` renders for this error.
    pub open spec fn spec_message(self) -> Seq<char> {
        match self {
            LinearRegressionError::DimensionMismatch { expected, found, context } => "Dimension mismatch in "@
                + context@ + ": expected "@ + decimal_digits(expected as nat) + ", found "@
                + decimal_digits(found as nat),
            LinearRegressionError::EmptyData => "Empty data provided"@,
            LinearRegressionError::NumericalError(msg) => "Numerical error: "@ + msg@,
        }
    }

    /// Renders the error as human-readable text.
    pub fn message(&self) -> (r: String)
        ensures
            r@ == self.spec_message(),
    {
        match self {
            LinearRegressionError::DimensionMismatch { expected, found, context } => {
                let mut s = String::from_str("Dimension mismatch in ");
                s.append(context);
                s.append(": expected ");
                push_decimal(*expected, &mut s);
                s.append(", found ");
                push_decimal(*found, &mut s);
                proof {
                    assert(s@ =~= self.spec_message());
                }
                s
            },
            LinearRegressionError::EmptyData => String::from_str("Empty data provided"),
            LinearRegressionError::NumericalError(msg) => {
                let mut s = String::from_str("Numerical error: ");
                s.append(msg);
                s
            },
        }
    }
}

} // verus!
