//! The ways in which decoding a record fails.

use vstd::prelude::*;
use crate::scalar::Scalar;

verus! {

/// Why a record could not be decoded. Every failure ends the decoding of the
/// record at once; nothing of the record is handed back.
#[derive(Clone, Copy, Debug, PartialEq)]
pub enum ParseError {
    /// A header field lies outside its legal range.
    RangeViolation {
        /// The field that was read.
        field: &'static str,
        /// The kind of record that the field belongs to.
        record: &'static str,
        /// The value found on the wire.
        value: Scalar,
        /// The least legal value.
        low: Scalar,
        /// The greatest legal value.
        high: Scalar,
    },
    /// The buffer ended before a field or the rate array was complete.
    UnexpectedEndOfData,
}

/// A `ParseError` with its names as sequences of characters.
pub ghost enum ParseErrorView {
    RangeViolation {
        field: Seq<char>,
        record: Seq<char>,
        value: Scalar,
        low: Scalar,
        high: Scalar,
    },
    UnexpectedEndOfData,
}

impl View for ParseError {
    type V = ParseErrorView;

    open spec fn view(&self) -> ParseErrorView {
        match *self {
            ParseError::RangeViolation { field, record, value, low, high } => {
                ParseErrorView::RangeViolation { field: field@, record: record@, value, low, high }
            },
            ParseError::UnexpectedEndOfData => ParseErrorView::UnexpectedEndOfData,
        }
    }
}

} // verus!
