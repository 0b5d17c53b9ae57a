//! The top-level error taxonomy of a run.

use vstd::prelude::*;

use crate::find::FindError;
use crate::precision::{spec_precision_validation_message, PrecisionError};
use crate::validate::IntoValidationError;

verus! {

/// What can go wrong while turning the two input tokens into output: the
/// precision name matched no variant, or the timestamp token could not be
/// taken as a signed 64-bit count (malformed, out of the 64-bit range, or
/// naming an instant beyond the supported calendar range).
#[derive(Debug, Clone, PartialEq)]
pub enum UtError {
    PrecisionError(FindError),
    WrongTimestamp,
}

/// The validation message of a run failure.
pub open spec fn spec_ut_validation_message(e: UtError) -> Seq<char> {
    match e {
        UtError::PrecisionError(fe) => spec_precision_validation_message(
            PrecisionError::WrongName(fe),
        ),
        UtError::WrongTimestamp => "Wrong timestamp. error:not an integer in the supported range."@,
    }
}

impl IntoValidationError for UtError {
    fn into_validation_error(self) -> (r: String)
        ensures
            r@ == spec_ut_validation_message(self),
    {
        match self {
            UtError::PrecisionError(fe) => PrecisionError::WrongName(fe).into_validation_error(),
            UtError::WrongTimestamp => "Wrong timestamp. error:not an integer in the supported range.".to_owned(),
        }
    }
}

} // verus!
