//! Rendering of structured errors into user-facing validation messages.

use vstd::prelude::*;

verus! {

/// An error that can be rendered as a single actionable message, naming the
/// offending input and, for lookup failures, the full set of valid names.
pub trait IntoValidationError: Sized {
    fn into_validation_error(self) -> String;
}

} // verus!
