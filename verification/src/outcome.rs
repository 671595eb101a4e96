//! What a validation rule or a zome function answers.

use vstd::prelude::*;
use hdi::prelude::SerializedBytesError;

verus! {

/// The verdict of a validation rule on an action.
#[derive(Debug, Clone, PartialEq, Eq)]
pub enum ValidateCallbackResult {
    Valid,
    Invalid(String),
}

/// Declares the error of holochain's serialisation (decoding records and
/// answers, encoding actions).
#[verifier::external_type_specification]
#[verifier::external_body]
pub struct ExSerializedBytesError(SerializedBytesError);

/// Why a zome function gave up: a message of its own (`Guest`), the error
/// that a host call raised, handed on unchanged (`Raised`), or the error of
/// decoding or encoding bytes here (`Undecodable`).
#[derive(Debug, PartialEq, Eq)]
pub enum ExternError<E> {
    Guest(String),
    Raised(E),
    Undecodable(SerializedBytesError),
}

/// A verdict, with its message as characters.
pub enum Verdict {
    Valid,
    Invalid(Seq<char>),
}

/// A failure, with a message of its own as characters.
pub enum Failure<E> {
    Guest(Seq<char>),
    Raised(E),
    Undecodable(SerializedBytesError),
}

impl View for ValidateCallbackResult {
    type V = Verdict;

    open spec fn view(&self) -> Verdict {
        match self {
            ValidateCallbackResult::Valid => Verdict::Valid,
            ValidateCallbackResult::Invalid(m) => Verdict::Invalid(m@),
        }
    }
}

impl<E> View for ExternError<E> {
    type V = Failure<E>;

    open spec fn view(&self) -> Failure<E> {
        match self {
            ExternError::Guest(m) => Failure::Guest(m@),
            ExternError::Raised(e) => Failure::Raised(*e),
            ExternError::Undecodable(e) => Failure::Undecodable(*e),
        }
    }
}

/// The answer of a validation rule that may give up.
pub open spec fn outcome_view<E>(r: Result<ValidateCallbackResult, ExternError<E>>) -> Result<
    Verdict,
    Failure<E>,
> {
    match r {
        Ok(v) => Ok(v@),
        Err(e) => Err(e@),
    }
}

/// An answer of any type that may give up, with the failure viewed.
pub open spec fn failure_view<T, E>(r: Result<T, ExternError<E>>) -> Result<T, Failure<E>> {
    match r {
        Ok(v) => Ok(v),
        Err(e) => Err(e@),
    }
}

/// A verdict that refuses, with the given message.
pub fn invalid(message: &str) -> (r: ValidateCallbackResult)
    ensures
        r@ == Verdict::Invalid(message@),
{
    ValidateCallbackResult::Invalid(message.to_string())
}

/// A failure with a message of this library's own.
pub fn guest_error<E>(message: &str) -> (r: ExternError<E>)
    ensures
        r@ == Failure::<E>::Guest(message@),
{
    ExternError::Guest(message.to_string())
}

} // verus!
