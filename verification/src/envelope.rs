//! The response envelope that every command answers with.

use vstd::prelude::*;

verus! {

/// The uniform answer of a command: either the data it produced or a text
/// that says what failed. `success` tells which.
///
/// The envelope is built once and handed back; nothing stores it.
#[derive(Debug, Clone)]
pub struct ApiResponse<T> {
    pub success: bool,
    pub data: Option<T>,
    pub error: Option<String>,
}

/// The mathematical content of an [`ApiResponse`]: the same three fields,
/// with the error text as a sequence of characters.
pub struct Envelope<T> {
    pub success: bool,
    pub data: Option<T>,
    pub error: Option<Seq<char>>,
}

impl<T> Envelope<T> {
    /// The envelope of a command that produced `data`.
    pub open spec fn success(data: T) -> Envelope<T> {
        Envelope { success: true, data: Some(data), error: None }
    }

    /// The envelope of a command that failed, with the text that says why.
    pub open spec fn failure(message: Seq<char>) -> Envelope<T> {
        Envelope { success: false, data: None, error: Some(message) }
    }

    /// Exactly one of `data` and `error` is there, and `success` says which:
    /// a success carries data and no error, a failure an error and no data.
    pub open spec fn is_consistent(self) -> bool {
        &&& self.success ==> self.data is Some && self.error is None
        &&& !self.success ==> self.data is None && self.error is Some
    }
}

impl<T> View for ApiResponse<T> {
    type V = Envelope<T>;

    open spec fn view(&self) -> Envelope<T> {
        Envelope {
            success: self.success,
            data: self.data,
            error: match self.error {
                Some(text) => Some(text@),
                None => None,
            },
        }
    }
}

impl<T> ApiResponse<T> {
    /// Wraps the data of a command that succeeded.
    pub fn with_data(data: T) -> (r: Self)
        ensures
            r@ == Envelope::success(data),
    {
        ApiResponse { success: true, data: Some(data), error: None }
    }

    /// Wraps the description of what made a command fail.
    pub fn with_error(message: String) -> (r: Self)
        ensures
            r@ == Envelope::<T>::failure(message@),
    {
        ApiResponse { success: false, data: None, error: Some(message) }
    }

    /// Whether exactly one of `data` and `error` is set, as `success` says.
    pub fn is_consistent(&self) -> (r: bool)
        ensures
            r == self@.is_consistent(),
    {
        if self.success {
            self.data.is_some() && self.error.is_none()
        } else {
            self.data.is_none() && self.error.is_some()
        }
    }
}

/// Both ways of building an envelope give a consistent one, and they are the
/// only consistent ones: a consistent envelope is a success with its data or
/// a failure with its text, never both and never neither.
pub proof fn law_envelopes_are_consistent<T>(e: Envelope<T>)
    ensures
        e.is_consistent() <==> (exists|data: T| e == Envelope::success(data)) || (exists|
            message: Seq<char>,
        |
            e == Envelope::<T>::failure(message)),
{
    if e.is_consistent() {
        if e.success {
            assert(e == Envelope::success(e.data->0));
        } else {
            assert(e == Envelope::<T>::failure(e.error->0));
        }
    }
}

} // verus!
