//! The single error shape that crosses the boundary of this crate.

use vstd::prelude::*;

verus! {

/// The one reportable failure: a human-readable message and nothing else.
///
/// Callers branch on the presence of an error, never on its wording.
#[derive(Debug)]
pub enum FastCryptoError {
    Generic { msg: String },
}

impl FastCryptoError {
    /// The message carried by this error, as a sequence of characters.
    pub open spec fn text(self) -> Seq<char> {
        self->msg@
    }

    /// Wraps a diagnostic of a primitive into the reportable shape.
    pub fn generic(msg: String) -> (e: Self)
        ensures
            e == (FastCryptoError::Generic { msg }),
            e.text() == msg@,
    {
        FastCryptoError::Generic { msg }
    }

    /// A copy of the message, for callers that print or log it.
    pub fn message(&self) -> (s: String)
        ensures
            s@ == self.text(),
    {
        match self {
            FastCryptoError::Generic { msg } => msg.clone(),
        }
    }

    /// Flattens a failure of a primitive into the reportable shape.
    ///
    /// A success passes through untouched; a diagnostic becomes the message
    /// of the one error kind, word for word.
    pub fn flatten<T>(outcome: Result<T, String>) -> (r: Result<T, Self>)
        ensures
            outcome matches Ok(value) ==> r == Ok::<T, Self>(value),
            outcome matches Err(msg) ==> r == Err::<T, Self>(FastCryptoError::Generic { msg }),
    {
        match outcome {
            Ok(value) => Ok(value),
            Err(msg) => Err(FastCryptoError::generic(msg)),
        }
    }
}

} // verus!
