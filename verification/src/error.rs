//! The failures that the geometry and the optimizer report.
use vstd::prelude::*;
use vstd::string::StringExecFns;

verus! {

/// Why an operation produced no value.
#[derive(Debug, PartialEq, Eq)]
pub enum ManifoldError {
    /// A point or tangent vector has the wrong number of coordinates.
    DimensionMismatch { expected: usize, got: usize },
    /// The coordinates have the right shape but fail the membership test.
    PointNotOnManifold { reason: String },
    /// The vector has the right shape but does not lie in the tangent space.
    InvalidTangentVector { reason: String },
    /// The operation is not defined at the given input.
    NumericalError(String),
    /// Reserved for an optimizer that gives up; nothing reports it today.
    ConvergenceError { iterations: usize },
    /// A configuration value or a call is out of order.
    InvalidParameter(String),
    /// A factorization or an inversion failed.
    LinearAlgebraError(String),
}

/// What a `ManifoldError` says, with numbers as naturals and texts as character sequences.
pub enum ManifoldErrorView {
    DimensionMismatch { expected: nat, got: nat },
    PointNotOnManifold { reason: Seq<char> },
    InvalidTangentVector { reason: Seq<char> },
    NumericalError(Seq<char>),
    ConvergenceError { iterations: nat },
    InvalidParameter(Seq<char>),
    LinearAlgebraError(Seq<char>),
}

impl View for ManifoldError {
    type V = ManifoldErrorView;

    open spec fn view(&self) -> ManifoldErrorView {
        match self {
            ManifoldError::DimensionMismatch { expected, got } => ManifoldErrorView::DimensionMismatch {
                expected: *expected as nat,
                got: *got as nat,
            },
            ManifoldError::PointNotOnManifold { reason } => ManifoldErrorView::PointNotOnManifold {
                reason: reason@,
            },
            ManifoldError::InvalidTangentVector { reason } => ManifoldErrorView::InvalidTangentVector {
                reason: reason@,
            },
            ManifoldError::NumericalError(text) => ManifoldErrorView::NumericalError(text@),
            ManifoldError::ConvergenceError { iterations } => ManifoldErrorView::ConvergenceError {
                iterations: *iterations as nat,
            },
            ManifoldError::InvalidParameter(text) => ManifoldErrorView::InvalidParameter(text@),
            ManifoldError::LinearAlgebraError(text) => ManifoldErrorView::LinearAlgebraError(text@),
        }
    }
}

/// The character of a decimal digit.
pub open spec fn digit(d: nat) -> char {
    if d == 0 {
        '0'
    } else if d == 1 {
        '1'
    } else if d == 2 {
        '2'
    } else if d == 3 {
        '3'
    } else if d == 4 {
        '4'
    } else if d == 5 {
        '5'
    } else if d == 6 {
        '6'
    } else if d == 7 {
        '7'
    } else if d == 8 {
        '8'
    } else {
        '9'
    }
}

/// The decimal numeral of a natural number, without leading zeros.
pub open spec fn decimal(n: nat) -> Seq<char>
    decreases n,
{
    if n < 10 {
        seq![digit(n)]
    } else {
        decimal(n / 10).push(digit(n % 10))
    }
}

impl ManifoldErrorView {
    /// The failure as a sentence.
    pub open spec fn text(self) -> Seq<char> {
        match self {
            ManifoldErrorView::DimensionMismatch { expected, got } => {
                "Dimension mismatch: expected "@ + decimal(expected) + ", got "@ + decimal(got)
            },
            ManifoldErrorView::PointNotOnManifold { reason } => "Point not on manifold: "@ + reason,
            ManifoldErrorView::InvalidTangentVector { reason } => {
                "Tangent vector not in tangent space: "@ + reason
            },
            ManifoldErrorView::NumericalError(text) => "Numerical error: "@ + text,
            ManifoldErrorView::ConvergenceError { iterations } => {
                "Convergence failed after "@ + decimal(iterations) + " iterations"@
            },
            ManifoldErrorView::InvalidParameter(text) => "Invalid parameter: "@ + text,
            ManifoldErrorView::LinearAlgebraError(text) => "Linear algebra error: "@ + text,
        }
    }
}

/// The view of a check's result: `Ok` stays `Ok`, an error is seen through its view.
pub open spec fn verdict(result: Result<(), ManifoldError>) -> Result<(), ManifoldErrorView> {
    match result {
        Ok(_) => Ok(()),
        Err(e) => Err(e@),
    }
}

fn digit_text(d: usize) -> (text: &'static str)
    requires
        d < 10,
    ensures
        text@ == seq![digit(d as nat)],
{
    proof {
        reveal_strlit("0");
        reveal_strlit("1");
        reveal_strlit("2");
        reveal_strlit("3");
        reveal_strlit("4");
        reveal_strlit("5");
        reveal_strlit("6");
        reveal_strlit("7");
        reveal_strlit("8");
        reveal_strlit("9");
    }
    let text = if d == 0 {
        "0"
    } else if d == 1 {
        "1"
    } else if d == 2 {
        "2"
    } else if d == 3 {
        "3"
    } else if d == 4 {
        "4"
    } else if d == 5 {
        "5"
    } else if d == 6 {
        "6"
    } else if d == 7 {
        "7"
    } else if d == 8 {
        "8"
    } else {
        "9"
    };
    assert(text@ =~= seq![digit(d as nat)]);
    text
}

fn decimal_text(n: usize) -> (text: String)
    ensures
        text@ == decimal(n as nat),
    decreases n,
{
    if n < 10 {
        digit_text(n).to_owned()
    } else {
        let text = decimal_text(n / 10).concat(digit_text(n % 10));
        assert(text@ =~= decimal((n / 10) as nat).push(digit((n % 10) as nat)));
        text
    }
}

impl ManifoldError {
    /// The failure as a sentence for a person to read.
    pub fn message(&self) -> (text: String)
        ensures
            text@ == self@.text(),
    {
        match self {
            ManifoldError::DimensionMismatch { expected, got } => {
                let mut text = "Dimension mismatch: expected ".to_owned();
                text.append(decimal_text(*expected).as_str());
                text.append(", got ");
                text.append(decimal_text(*got).as_str());
                text
            },
            ManifoldError::PointNotOnManifold { reason } => {
                "Point not on manifold: ".to_owned().concat(reason.as_str())
            },
            ManifoldError::InvalidTangentVector { reason } => {
                "Tangent vector not in tangent space: ".to_owned().concat(reason.as_str())
            },
            ManifoldError::NumericalError(text) => {
                "Numerical error: ".to_owned().concat(text.as_str())
            },
            ManifoldError::ConvergenceError { iterations } => {
                let mut text = "Convergence failed after ".to_owned();
                text.append(decimal_text(*iterations).as_str());
                text.append(" iterations");
                text
            },
            ManifoldError::InvalidParameter(text) => {
                "Invalid parameter: ".to_owned().concat(text.as_str())
            },
            ManifoldError::LinearAlgebraError(text) => {
                "Linear algebra error: ".to_owned().concat(text.as_str())
            },
        }
    }

    pub(crate) fn dimension_mismatch(expected: usize, got: usize) -> (e: Self)
        ensures
            e@ == (ManifoldErrorView::DimensionMismatch { expected: expected as nat, got: got as nat }),
    {
        ManifoldError::DimensionMismatch { expected, got }
    }

    pub(crate) fn point_not_on_manifold(reason: &str) -> (e: Self)
        ensures
            e@ == (ManifoldErrorView::PointNotOnManifold { reason: reason@ }),
    {
        ManifoldError::PointNotOnManifold { reason: reason.to_owned() }
    }

    pub(crate) fn invalid_tangent_vector(reason: &str) -> (e: Self)
        ensures
            e@ == (ManifoldErrorView::InvalidTangentVector { reason: reason@ }),
    {
        ManifoldError::InvalidTangentVector { reason: reason.to_owned() }
    }

    pub(crate) fn numerical(text: &str) -> (e: Self)
        ensures
            e@ == ManifoldErrorView::NumericalError(text@),
    {
        ManifoldError::NumericalError(text.to_owned())
    }

    pub(crate) fn invalid_parameter(text: &str) -> (e: Self)
        ensures
            e@ == ManifoldErrorView::InvalidParameter(text@),
    {
        ManifoldError::InvalidParameter(text.to_owned())
    }

    pub(crate) fn linear_algebra(text: &str) -> (e: Self)
        ensures
            e@ == ManifoldErrorView::LinearAlgebraError(text@),
    {
        ManifoldError::LinearAlgebraError(text.to_owned())
    }
}

} // verus!
