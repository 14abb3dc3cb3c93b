use vstd::prelude::*;

verus! {

/// Errors from fixed-point construction or arithmetic.
///
/// The conversions from floating point that produce `NaN` and `OutOfRange`
/// live at the application boundary, which also renders the out-of-range
/// value and the format's range as text; the integer arithmetic here only
/// produces `DivisionByZero`.
#[derive(Debug, Clone, PartialEq, Eq)]
pub enum FixedPointError {
    /// The floating-point input was NaN.
    NaN,
    /// The input, after rounding, lies outside the representable range
    /// `[min, max]` (each as displayed).
    OutOfRange { value: String, min: String, max: String },
    /// Division by a zero-valued fixed-point number.
    DivisionByZero,
}

/// The rendered message of a [`FixedPointError`].
pub open spec fn fixed_point_error_message(e: FixedPointError) -> Seq<char> {
    match e {
        FixedPointError::NaN => "fixed-point conversion rejected NaN input"@,
        FixedPointError::OutOfRange { value, min, max } => "fixed-point conversion: value "@ + value@
            + " is outside the representable range ["@ + min@ + ", "@ + max@ + "]"@,
        FixedPointError::DivisionByZero => "fixed-point division by zero"@,
    }
}

impl FixedPointError {
    /// The rendered message.
    pub fn message(&self) -> (m: String)
        ensures
            m@ == fixed_point_error_message(*self),
    {
        match self {
            FixedPointError::NaN => "fixed-point conversion rejected NaN input".to_owned(),
            FixedPointError::OutOfRange { value, min, max } => {
                let mut s = "fixed-point conversion: value ".to_owned();
                s.append(value.as_str());
                s.append(" is outside the representable range [");
                s.append(min.as_str());
                s.append(", ");
                s.append(max.as_str());
                s.append("]");
                s
            },
            FixedPointError::DivisionByZero => "fixed-point division by zero".to_owned(),
        }
    }
}

} // verus!
