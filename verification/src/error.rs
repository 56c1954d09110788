//! Error taxonomy shared by every layer of the client.

use vstd::prelude::*;

verus! {

/// A textual or integer encoding that does not denote a value of its kind.
#[derive(Clone, Copy, Debug, PartialEq, Eq, Structural)]
pub enum FormatError {
    /// The text holds a character that is not a hexadecimal digit.
    InvalidHexCharacter,
    /// The text holds an odd number of hexadecimal digits.
    OddLength,
    /// The text decodes to a byte count other than the one its kind fixes.
    WrongLength,
    /// The integer is not the wire code of any transfer priority.
    InvalidPriority,
}

/// A payload that does not have the shape its type asks for.
#[derive(Clone, Copy, Debug, PartialEq, Eq, Structural)]
pub enum DecodeError {
    /// A record was expected and the value is not an object.
    NotAnObject,
    /// The object lacks a member that the record needs.
    MissingField,
    /// The value is of another JSON kind, or a number out of the range, than the type asks for.
    WrongType,
    /// The status member is absent or is not the success tag.
    BadStatus,
    /// A text member is not the encoding of the identifier or code it stands for.
    Format(FormatError),
    /// A text member is not a Monero address.
    InvalidAddress,
}

/// An error that the remote endpoint reported in its reply, kept as it came.
#[derive(Clone, Debug, PartialEq, Eq)]
pub struct RemoteError {
    pub code: i64,
    pub message: String,
}

/// Why a call gave no typed result.
#[derive(Debug, PartialEq, Eq)]
pub enum ClientError {
    /// The endpoint could not be reached, or the exchange broke off.
    Transport(String),
    /// The reply is not a JSON-RPC response: it is no JSON text, no object,
    /// or holds neither a result nor a well-formed error, or both.
    Protocol,
    /// The endpoint answered with a JSON-RPC error.
    Remote(RemoteError),
    /// The result does not have the shape of the expected type.
    Decode(DecodeError),
}

/// What a `ClientError` says, with texts as character sequences.
pub enum ClientFault {
    Transport(Seq<char>),
    Protocol,
    Remote { code: int, message: Seq<char> },
    Decode(DecodeError),
}

impl View for ClientError {
    type V = ClientFault;

    open spec fn view(&self) -> ClientFault {
        match self {
            ClientError::Transport(reason) => ClientFault::Transport(reason@),
            ClientError::Protocol => ClientFault::Protocol,
            ClientError::Remote(e) => ClientFault::Remote { code: e.code as int, message: e.message@ },
            ClientError::Decode(e) => ClientFault::Decode(*e),
        }
    }
}

} // verus!
