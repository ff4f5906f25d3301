//! Why a response could not be decoded.

use crate::field::Field;
use vstd::prelude::*;

verus! {

/// The reason a response body was rejected. A rejected body yields nothing else.
#[derive(Clone, Copy, Debug, PartialEq, Eq, Structural)]
pub enum DecodeError {
    /// The text is not a JSON document.
    Syntax,
    /// A required member is absent from the object that should hold it.
    Missing(Field),
    /// A member is present but its value has the wrong type, or is a number
    /// outside the range of the member's integer type.
    Invalid(Field),
    /// The page claims more records than match the query in total.
    InconsistentCounts,
}

/// An outcome with its value seen as what it holds.
pub open spec fn viewed<T: View>(outcome: Result<T, DecodeError>) -> Result<T::V, DecodeError> {
    match outcome {
        Ok(value) => Ok(value@),
        Err(error) => Err(error),
    }
}

} // verus!
