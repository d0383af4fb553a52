//! Header scalars and the closed ranges they are held to.

use vstd::prelude::*;
use crate::binary32::Binary32;
use crate::error::ParseError;
use crate::error::ParseErrorView;

verus! {

/// A header field as read from the wire.
#[derive(Clone, Copy, Debug, PartialEq)]
pub enum Scalar {
    /// A 32-bit IEEE 754 number.
    Float(Binary32),
    /// A 32-bit signed integer.
    Integer(i32),
}

impl Scalar {
    /// `self <= other`. A float and an integer are unordered, as is anything
    /// and a NaN.
    pub open spec fn le_spec(self, other: Scalar) -> bool {
        match (self, other) {
            (Scalar::Float(a), Scalar::Float(b)) => a.le_spec(b),
            (Scalar::Integer(a), Scalar::Integer(b)) => a <= b,
            _ => false,
        }
    }

    pub fn le(&self, other: &Scalar) -> (r: bool)
        ensures
            r == self.le_spec(*other),
    {
        match (self, other) {
            (Scalar::Float(a), Scalar::Float(b)) => a.le(b),
            (Scalar::Integer(a), Scalar::Integer(b)) => *a <= *b,
            _ => false,
        }
    }
}

/// The closed range from `start` to `end`, both ends included.
#[derive(Clone, Copy, Debug, PartialEq)]
pub struct ClosedRange {
    pub start: Scalar,
    pub end: Scalar,
}

impl ClosedRange {
    /// `start <= value <= end`, compared exactly.
    pub open spec fn contains_spec(self, value: Scalar) -> bool {
        self.start.le_spec(value) && value.le_spec(self.end)
    }

    pub fn contains(&self, value: &Scalar) -> (r: bool)
        ensures
            r == self.contains_spec(*value),
    {
        self.start.le(value) && value.le(&self.end)
    }
}

/// The failure that a value outside its range gives.
pub open spec fn range_violation(
    range: ClosedRange,
    value: Scalar,
    field: Seq<char>,
    record: Seq<char>,
) -> ParseErrorView {
    ParseErrorView::RangeViolation { field, record, value, low: range.start, high: range.end }
}

/// Accepts `value` if it lies in `range`; otherwise fails with a
/// `RangeViolation` that names the field and the record kind and carries the
/// value and the two bounds.
pub fn check_range_inclusive(
    range: ClosedRange,
    value: Scalar,
    field_name: &'static str,
    record_name: &'static str,
) -> (res: Result<(), ParseError>)
    ensures
        res is Ok <==> range.contains_spec(value),
        res matches Err(e) ==> e@ == range_violation(range, value, field_name@, record_name@),
{
    if range.contains(&value) {
        Ok(())
    } else {
        Err(
            ParseError::RangeViolation {
                field: field_name,
                record: record_name,
                value,
                low: range.start,
                high: range.end,
            },
        )
    }
}

} // verus!
