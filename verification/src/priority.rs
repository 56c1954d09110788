//! Transfer priority and its integer wire code.

use vstd::prelude::*;
use crate::error::{DecodeError, FormatError};
use crate::json::{writable, Json, JsonValue};

verus! {

/// How urgently the wallet should get a transfer mined.
#[derive(Clone, Copy, Debug, PartialEq, Eq, Structural)]
pub enum TransferPriority {
    Default,
    Unimportant,
    Elevated,
    Priority,
}

/// The wire code of a priority.
pub open spec fn priority_code(p: TransferPriority) -> int {
    match p {
        TransferPriority::Default => 0,
        TransferPriority::Unimportant => 1,
        TransferPriority::Elevated => 2,
        TransferPriority::Priority => 3,
    }
}

/// The priority that a wire code denotes, if any.
pub open spec fn priority_of_code(code: int) -> Result<TransferPriority, FormatError> {
    if code == 0 {
        Ok(TransferPriority::Default)
    } else if code == 1 {
        Ok(TransferPriority::Unimportant)
    } else if code == 2 {
        Ok(TransferPriority::Elevated)
    } else if code == 3 {
        Ok(TransferPriority::Priority)
    } else {
        Err(FormatError::InvalidPriority)
    }
}

/// The priority that a JSON value denotes: the value has to be an integer
/// from zero to three.
pub open spec fn priority_of_json(value: JsonValue) -> Result<TransferPriority, DecodeError> {
    match value {
        JsonValue::Integer(code) => match priority_of_code(code) {
            Ok(p) => Ok(p),
            Err(e) => Err(DecodeError::Format(e)),
        },
        _ => Err(DecodeError::WrongType),
    }
}

impl TransferPriority {
    /// The JSON value sent for this priority: its integer code.
    pub fn serialize(&self) -> (j: Json)
        ensures
            j@ == JsonValue::Integer(priority_code(*self)),
            writable(j),
    {
        Json::Unsigned(self.code() as u64)
    }

    /// Reads a priority from the JSON value received for it. A value that is
    /// no integer is of the wrong type; an integer that is no code is
    /// refused as such, whatever its size or sign.
    pub fn deserialize(value: &Json) -> (r: Result<TransferPriority, DecodeError>)
        ensures
            r == priority_of_json(value@),
    {
        match value {
            Json::Unsigned(code) => match TransferPriority::from_code(*code) {
                Ok(p) => Ok(p),
                Err(e) => Err(DecodeError::Format(e)),
            },
            Json::Signed(code) => if *code < 0 {
                Err(DecodeError::Format(FormatError::InvalidPriority))
            } else {
                match TransferPriority::from_code(*code as u64) {
                    Ok(p) => Ok(p),
                    Err(e) => Err(DecodeError::Format(e)),
                }
            },
            _ => Err(DecodeError::WrongType),
        }
    }

    /// The integer sent on the wire for this priority.
    pub fn code(self) -> (code: u8)
        ensures
            code == priority_code(self),
    {
        match self {
            TransferPriority::Default => 0,
            TransferPriority::Unimportant => 1,
            TransferPriority::Elevated => 2,
            TransferPriority::Priority => 3,
        }
    }

    /// Reads a priority back from its wire code; every other integer is refused.
    pub fn from_code(code: u64) -> (r: Result<TransferPriority, FormatError>)
        ensures
            r == priority_of_code(code as int),
    {
        if code == 0 {
            Ok(TransferPriority::Default)
        } else if code == 1 {
            Ok(TransferPriority::Unimportant)
        } else if code == 2 {
            Ok(TransferPriority::Elevated)
        } else if code == 3 {
            Ok(TransferPriority::Priority)
        } else {
            Err(FormatError::InvalidPriority)
        }
    }
}

/// Decoding the code of a priority gives that priority back, and the codes
/// are exactly the integers zero to three: any other integer is refused
/// rather than mapped to a nearby priority.
pub proof fn lemma_priority_round_trip(p: TransferPriority, code: int)
    ensures
        0 <= priority_code(p) <= 3,
        priority_of_code(priority_code(p)) == Ok::<TransferPriority, FormatError>(p),
        !(0 <= code <= 3) ==> priority_of_code(code) == Err::<TransferPriority, FormatError>(
            FormatError::InvalidPriority,
        ),
        0 <= code <= 3 ==> priority_of_code(code) is Ok && priority_code(
            priority_of_code(code)->Ok_0,
        ) == code,
        priority_of_json(JsonValue::Integer(priority_code(p))) == Ok::<
            TransferPriority,
            DecodeError,
        >(p),
{
}

} // verus!
