//! The result serializer: turns what a method returned into a JSON value, or
//! into the error object that reports why it could not.

use vstd::prelude::*;
use vstd::string::StringExecFns;
use serde_json::Value;
use crate::types::{Error, ErrorCode, ErrorView, result_view};
use crate::wire::to_value;

verus! {

/// The error object for a result that could not be serialized: the server
/// error code 8, with a message that ends in the cause and no data.
pub open spec fn serialization_failure(cause: Seq<char>) -> ErrorView {
    ErrorView {
        code: ErrorCode::ServerError(8),
        message: "Error serializing response. "@ + cause,
        data: None,
    }
}

/// Builds the error object for a result that could not be serialized, from
/// the text that describes the cause.
pub fn serialization_error(cause: &str) -> (error: Error)
    ensures
        error@ == serialization_failure(cause@),
{
    let message = String::from_str("Error serializing response. ").concat(cause);
    Error { code: ErrorCode::ServerError(8), message, data: None }
}

/// Whether `outcome` is what `serde_json` gave when it was asked to turn
/// `value` into a JSON value. The `Serialize` impl of `T` decides it, and
/// nothing is known of it here: two such calls on one value may differ.
pub closed spec fn serializes<T: serde::Serialize>(
    value: &T,
    outcome: Result<Value, serde_json::Error>,
) -> bool {
    call_ensures(to_value::<T>, (value,), outcome)
}

/// What the serializer returns for what serializing gave: the value where
/// there is one, and otherwise the error object that reports the failure with
/// the text that the failure displays as.
pub open spec fn serialized(
    outcome: Result<Value, serde_json::Error>,
    res: Result<Value, ErrorView>,
) -> bool {
    match outcome {
        Ok(value) => res == Ok::<Value, ErrorView>(value),
        Err(failure) => exists|cause: String|
            #![auto]
            {
                &&& vstd::string::to_string_from_display_ensures::<serde_json::Error>(
                    &failure,
                    cause,
                )
                &&& res == Err::<Value, ErrorView>(serialization_failure(cause@))
            },
    }
}

/// Decides what the serializer returns from what serializing gave: the value
/// where there is one, and otherwise the error object that reports the
/// failure with the text that the failure displays as.
pub fn serialized_or_error(outcome: Result<Value, serde_json::Error>) -> (res: Result<Value, Error>)
    ensures
        serialized(outcome, result_view(res)),
{
    match outcome {
        Ok(value) => Ok(value),
        Err(failure) => {
            let cause = failure.to_string();
            Err(serialization_error(cause.as_str()))
        },
    }
}

/// Serializes what a method returned: hands it to `serde_json` and returns
/// what [`serialized_or_error`] makes of the outcome. A value that cannot be
/// serialized gives an error object, never a panic.
pub fn try_serialize<T: serde::Serialize>(t: &T) -> (res: Result<Value, Error>)
    ensures
        exists|outcome: Result<Value, serde_json::Error>|
            #![auto]
            serializes(t, outcome) && serialized(outcome, result_view(res)),
        res matches Err(error) ==> exists|cause: Seq<char>| error@ == serialization_failure(cause),
{
    // The call goes through a function value: only of such a call does the
    // verifier keep that `outcome` is what the call gave for `t`.
    let serialize = to_value::<T>;
    let outcome = serialize(t);
    serialized_or_error(outcome)
}

} // verus!
