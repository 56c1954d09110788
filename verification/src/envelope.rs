//! The JSON-RPC 2.0 envelope: what is sent for a call, and what a reply means.

use vstd::prelude::*;
use crate::error::{ClientError, ClientFault, RemoteError};
use crate::json::{
    items_view, items_writable, map_of_members, members_view, members_writable, writable, Json,
    JsonValue, ObjectBuilder,
};

verus! {

/// The parameters of a call: given by position or by name.
#[derive(Debug, PartialEq, Eq)]
pub enum Params {
    List(Vec<Json>),
    Named(Vec<(String, Json)>),
}

/// The parameters of a call as values.
pub enum ParamsValue {
    List(Seq<JsonValue>),
    Named(Map<Seq<char>, JsonValue>),
}

impl View for Params {
    type V = ParamsValue;

    open spec fn view(&self) -> ParamsValue {
        match self {
            Params::List(items) => ParamsValue::List(items_view(items@)),
            Params::Named(members) => ParamsValue::Named(map_of_members(members_view(members@))),
        }
    }
}

/// The JSON value that stands for the parameters: a list or an object.
pub open spec fn params_json(params: ParamsValue) -> JsonValue {
    match params {
        ParamsValue::List(items) => JsonValue::Array(items),
        ParamsValue::Named(members) => JsonValue::Object(members),
    }
}

impl Params {
    /// Whether the parameters can be written as JSON text: none of them
    /// holds a number with a fraction or an exponent.
    pub open spec fn writable(&self) -> bool {
        match self {
            Params::List(items) => items_writable(items@),
            Params::Named(members) => members_writable(members@),
        }
    }

    /// Parameters by name, from the members a builder has collected.
    pub fn named(builder: ObjectBuilder) -> (params: Params)
        ensures
            params@ == ParamsValue::Named(builder@),
            params.writable() == builder.all_writable(),
    {
        Params::Named(builder.into_members())
    }

    /// The JSON value sent for the parameters.
    pub fn into_json(self) -> (j: Json)
        ensures
            j@ == params_json(self@),
            writable(j) == self.writable(),
    {
        match self {
            Params::List(items) => Json::Array(items),
            Params::Named(members) => Json::Object(members),
        }
    }
}

/// A call as it is sent: the method, its parameters and the identifier that
/// the reply will carry. The protocol version is always 2.0.
#[derive(Debug, PartialEq, Eq)]
pub struct CallEnvelope {
    pub method: String,
    pub params: Params,
    pub id: String,
}

/// The JSON value of a call: an object with exactly the members `jsonrpc`,
/// `method`, `params` and `id`.
pub open spec fn envelope_json(method: Seq<char>, params: ParamsValue, id: Seq<char>) -> JsonValue {
    JsonValue::Object(
        Map::<Seq<char>, JsonValue>::empty().insert("jsonrpc"@, JsonValue::Text("2.0"@)).insert(
            "method"@,
            JsonValue::Text(method),
        ).insert("params"@, params_json(params)).insert("id"@, JsonValue::Text(id)),
    )
}

/// Whether a text has the form of a request identifier: a version 4 UUID,
/// written as 32 lowercase hexadecimal digits in five groups with hyphens
/// between them.
pub open spec fn is_request_id(id: Seq<char>) -> bool {
    &&& id.len() == 36
    &&& id[14] == '4'
    &&& forall|i: int|
        0 <= i < 36 ==> if i == 8 || i == 13 || i == 18 || i == 23 {
            #[trigger] id[i] == '-'
        } else {
            '0' <= id[i] <= '9' || 'a' <= id[i] <= 'f'
        }
}

/// `uuid::Uuid::new_v4` followed by the UUID's `to_string`: a fresh random
/// identifier in the hyphenated lowercase form. Which one is not known; two
/// calls give two identifiers.
#[verifier::external_body]
fn fresh_request_id() -> (id: String)
    ensures
        is_request_id(id@),
{
    uuid::Uuid::new_v4().to_string()
}

/// Puts a call together from its method and its parameters, and stamps it
/// with a fresh identifier. The identifier serves to tell replies apart and
/// is never looked at again.
pub fn build_call(method: &str, params: Params) -> (call: CallEnvelope)
    ensures
        call.method@ == method@,
        call.params == params,
        is_request_id(call.id@),
{
    CallEnvelope::new(method, params, fresh_request_id())
}

impl CallEnvelope {
    /// The call with the given method, parameters and identifier.
    pub fn new(method: &str, params: Params, id: String) -> (call: CallEnvelope)
        ensures
            call.method@ == method@,
            call.params == params,
            call.id == id,
    {
        CallEnvelope { method: method.to_owned(), params, id }
    }

    /// The JSON value sent for the call.
    pub fn into_json(self) -> (j: Json)
        ensures
            j@ == envelope_json(self.method@, self.params@, self.id@),
            writable(j) == self.params.writable(),
    {
        let mut builder = ObjectBuilder::new();
        builder.insert("jsonrpc", Json::text("2.0"));
        let method = Json::Text(self.method);
        let id = Json::Text(self.id);
        assert(writable(method) && writable(id));
        builder.insert("method", method);
        builder.insert("params", self.params.into_json());
        builder.insert("id", id);
        builder.finish()
    }
}

/// The code and the message of an error object, where it has both: an
/// integer that fits 64 bits and a text.
pub open spec fn remote_error_of(error: JsonValue) -> Option<(int, Seq<char>)> {
    match (error.member("code"@), error.member("message"@)) {
        (Some(code), Some(message)) => match (code.as_i64(), message.as_text()) {
            (Ok(c), Ok(m)) => Some((c as int, m)),
            _ => None,
        },
        _ => None,
    }
}

/// What a reply means.
///
/// A reply is an object that holds either a member `result`, whose value is
/// the outcome, or a member `error` with a code and a message, which is the
/// remote error. Everything else breaks the protocol: a value that is no
/// object, an object with neither member or with both, and an error without
/// an integer code or a text message.
pub open spec fn response_of(raw: JsonValue) -> Result<JsonValue, ClientFault> {
    match (raw.member("error"@), raw.member("result"@)) {
        (Some(_), Some(_)) => Err(ClientFault::Protocol),
        (Some(error), None) => match remote_error_of(error) {
            Some((code, message)) => Err(ClientFault::Remote { code, message }),
            None => Err(ClientFault::Protocol),
        },
        (None, Some(result)) => Ok(result),
        (None, None) => Err(ClientFault::Protocol),
    }
}

/// A reply that holds an error with an integer code and a text message, and
/// no result, means the remote error with that very code and message,
/// whatever else the reply and the error hold.
pub proof fn lemma_remote_error_verbatim(
    reply: Map<Seq<char>, JsonValue>,
    error: Map<Seq<char>, JsonValue>,
    code: i64,
    message: Seq<char>,
)
    requires
        reply.contains_key("error"@),
        reply["error"@] == JsonValue::Object(error),
        !reply.contains_key("result"@),
        error.contains_key("code"@),
        error["code"@] == JsonValue::Integer(code as int),
        error.contains_key("message"@),
        error["message"@] == JsonValue::Text(message),
    ensures
        response_of(JsonValue::Object(reply)) == Err::<JsonValue, ClientFault>(
            ClientFault::Remote { code: code as int, message },
        ),
{
}

/// Reads the code and the message out of an error object.
fn decode_remote_error(error: &Json) -> (r: Option<RemoteError>)
    ensures
        match r {
            Some(e) => remote_error_of(error@) == Some((e.code as int, e.message@)),
            None => remote_error_of(error@) is None,
        },
{
    let code = match error.get("code") {
        Some(value) => value,
        None => { return None; },
    };
    let message = match error.get("message") {
        Some(value) => value,
        None => { return None; },
    };
    match code.as_i64() {
        Ok(c) => match message.as_text() {
            Ok(m) => Some(RemoteError { code: c, message: m.to_owned() }),
            Err(_) => None,
        },
        Err(_) => None,
    }
}

/// Takes a reply apart: the result of the call, the error that the remote
/// endpoint reported, or a breach of the protocol.
pub fn decode_response(raw: &Json) -> (r: Result<&Json, ClientError>)
    ensures
        match r {
            Ok(result) => response_of(raw@) == Ok::<JsonValue, ClientFault>(result@),
            Err(e) => response_of(raw@) == Err::<JsonValue, ClientFault>(e@),
        },
{
    match raw.get("error") {
        Some(error) => match raw.get("result") {
            Some(_) => Err(ClientError::Protocol),
            None => match decode_remote_error(error) {
                Some(e) => Err(ClientError::Remote(e)),
                None => Err(ClientError::Protocol),
            },
        },
        None => match raw.get("result") {
            Some(result) => Ok(result),
            None => Err(ClientError::Protocol),
        },
    }
}

} // verus!
