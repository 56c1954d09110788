//! The status tag that the daemon puts on its results.

use vstd::prelude::*;
use crate::error::DecodeError;
use crate::json::{Json, JsonValue};

verus! {

/// The status of a result. The protocol defines one: success.
#[derive(Clone, Copy, Debug, PartialEq, Eq, Structural)]
pub enum Status {
    OK,
}

/// A payload together with its status.
#[derive(Clone, Debug, PartialEq, Eq)]
pub enum MoneroResult<T> {
    OK(T),
}

impl<T> MoneroResult<T> {
    /// The payload.
    pub fn into_inner(self) -> (payload: T)
        ensures
            self == MoneroResult::OK(payload),
    {
        match self {
            MoneroResult::OK(v) => v,
        }
    }
}

/// The status that a value carries.
///
/// The value has to be an object whose member `status` is the text `OK`.
/// A missing member, another text and a value of another kind are all
/// refused: the tag is never guessed.
pub open spec fn status_of(value: JsonValue) -> Result<Status, DecodeError> {
    match value {
        JsonValue::Object(_) => if value.member("status"@) == Some(JsonValue::Text("OK"@)) {
            Ok(Status::OK)
        } else {
            Err(DecodeError::BadStatus)
        },
        _ => Err(DecodeError::NotAnObject),
    }
}

/// The status check is strict: a value passes exactly when it is an object
/// whose member `status` is the text `OK`. An object without that member, or
/// with any other value for it, and a value that is no object all fail.
pub proof fn lemma_status_strict(value: JsonValue)
    ensures
        status_of(value) is Ok <==> value is Object && value.member("status"@) == Some(
            JsonValue::Text("OK"@),
        ),
        status_of(value) is Ok ==> status_of(value) == Ok::<Status, DecodeError>(Status::OK),
        value is Object && value.member("status"@) is None ==> status_of(value) == Err::<
            Status,
            DecodeError,
        >(DecodeError::BadStatus),
{
}

impl Status {
    /// Reads the status of a value.
    pub fn deserialize(value: &Json) -> (r: Result<Status, DecodeError>)
        ensures
            r == status_of(value@),
    {
        match value {
            Json::Object(_) => match value.get("status") {
                Some(tag) => if tag.is_text("OK") {
                    Ok(Status::OK)
                } else {
                    Err(DecodeError::BadStatus)
                },
                None => Err(DecodeError::BadStatus),
            },
            _ => Err(DecodeError::NotAnObject),
        }
    }
}

/// Checks the status of a value and hands the value on as the payload.
pub fn unwrap_status(value: &Json) -> (r: Result<MoneroResult<&Json>, DecodeError>)
    ensures
        match r {
            Ok(wrapped) => status_of(value@) == Ok::<Status, DecodeError>(Status::OK) && wrapped
                == MoneroResult::OK(value),
            Err(e) => status_of(value@) == Err::<Status, DecodeError>(e),
        },
{
    match Status::deserialize(value) {
        Ok(_) => Ok(MoneroResult::OK(value)),
        Err(e) => Err(e),
    }
}

} // verus!
