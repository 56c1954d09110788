//! The general client: an endpoint, and the one way a call goes out and a
//! reply comes back.

use vstd::prelude::*;
use vstd::string::*;
use crate::daemon::DaemonClient;
use crate::envelope::{
    build_call, envelope_json, is_request_id, response_of, CallEnvelope, Params, ParamsValue,
};
use crate::error::{ClientError, ClientFault, DecodeError};
use crate::json::{Json, JsonValue};
use crate::text::{json_parse, json_text, parse, render};
use crate::wallet::WalletClient;

verus! {

/// A remote procedure and the parameters to call it with.
#[derive(Debug, PartialEq, Eq)]
pub struct Request {
    pub method: &'static str,
    pub params: Params,
}

/// A request as values.
pub struct RequestView {
    pub method: Seq<char>,
    pub params: ParamsValue,
}

impl View for Request {
    type V = RequestView;

    open spec fn view(&self) -> RequestView {
        RequestView { method: self.method@, params: self.params@ }
    }
}

impl Request {
    /// Whether the request can be written as JSON text.
    pub open spec fn writable(&self) -> bool {
        self.params.writable()
    }
}

/// What a reply gives for a call whose result is read by `decode`: the
/// decoded result; the remote error or the breach of protocol found in the
/// envelope; or the reason why the result has another shape.
pub open spec fn reply_of<T>(
    raw: JsonValue,
    decode: spec_fn(JsonValue) -> Result<T, DecodeError>,
) -> Result<T, ClientFault> {
    match response_of(raw) {
        Ok(result) => match decode(result) {
            Ok(value) => Ok(value),
            Err(e) => Err(ClientFault::Decode(e)),
        },
        Err(fault) => Err(fault),
    }
}

/// What is posted for a call: where, as what, and the text.
#[derive(Debug, PartialEq, Eq)]
pub struct HttpRequest {
    pub url: String,
    pub content_type: &'static str,
    pub body: String,
}

/// Reads the text of a reply as JSON. A text that is no JSON breaks the
/// protocol.
pub fn read_reply(text: &str) -> (r: Result<Json, ClientError>)
    ensures
        match r {
            Ok(reply) => json_parse(text@) == Some(reply@),
            Err(e) => json_parse(text@) is None && e@ == ClientFault::Protocol,
        },
{
    match parse(text) {
        Some(reply) => Ok(reply),
        None => Err(ClientError::Protocol),
    }
}

/// Takes what the transport hands back after a call: the text of the reply,
/// or the reason why there is none. A failure of the transport is passed on
/// as it is, and a reply is read as JSON.
pub fn receive(outcome: Result<String, String>) -> (r: Result<Json, ClientError>)
    ensures
        match outcome {
            Err(reason) => r matches Err(e) && e@ == ClientFault::Transport(reason@),
            Ok(text) => match r {
                Ok(reply) => json_parse(text@) == Some(reply@),
                Err(e) => json_parse(text@) is None && e@ == ClientFault::Protocol,
            },
        },
{
    match outcome {
        Err(reason) => Err(ClientError::Transport(reason)),
        Ok(text) => read_reply(text.as_str()),
    }
}

/// A client that knows where the endpoint is and nothing of its role.
#[derive(Debug)]
pub struct RpcClient {
    addr: String,
}

impl RpcClient {
    /// The address of the endpoint, as given to `new`.
    pub closed spec fn endpoint(&self) -> Seq<char> {
        self.addr@
    }

    /// A client for the endpoint at `addr`.
    pub fn new(addr: String) -> (client: RpcClient)
        ensures
            client.endpoint() == addr@,
    {
        RpcClient { addr }
    }

    /// The address of the endpoint.
    pub fn addr(&self) -> (addr: &str)
        ensures
            addr@ == self.endpoint(),
    {
        self.addr.as_str()
    }

    /// Where calls are posted: the endpoint's address followed by `/json_rpc`.
    pub fn url(&self) -> (url: String)
        ensures
            url@ == self.endpoint() + "/json_rpc"@,
    {
        self.addr.clone().concat("/json_rpc")
    }

    /// What is posted for a request under a given identifier: the JSON text
    /// of the call, for `url()`, as `application/json`. Nothing is posted
    /// for a request that cannot be written.
    pub fn request_with_id(&self, request: Request, id: String) -> (r: Option<HttpRequest>)
        ensures
            match r {
                Some(out) => {
                    &&& request.writable()
                    &&& out.url@ == self.endpoint() + "/json_rpc"@
                    &&& out.content_type@ == "application/json"@
                    &&& out.body@ == json_text(
                        envelope_json(request@.method, request@.params, id@),
                    )
                },
                None => !request.writable(),
            },
    {
        let call = CallEnvelope::new(request.method, request.params, id);
        self.post(call)
    }

    /// What is posted for a call.
    fn post(&self, call: CallEnvelope) -> (r: Option<HttpRequest>)
        ensures
            match r {
                Some(out) => {
                    &&& call.params.writable()
                    &&& out.url@ == self.endpoint() + "/json_rpc"@
                    &&& out.content_type@ == "application/json"@
                    &&& out.body@ == json_text(envelope_json(call.method@, call.params@, call.id@))
                },
                None => !call.params.writable(),
            },
    {
        let tree = call.into_json();
        match render(&tree) {
            Some(body) => Some(
                HttpRequest { url: self.url(), content_type: "application/json", body },
            ),
            None => None,
        }
    }

    /// What is posted for a request, under a fresh identifier. Every request
    /// that the daemon and wallet clients build can be written.
    pub fn request(&self, request: Request) -> (r: Option<HttpRequest>)
        ensures
            match r {
                Some(out) => {
                    &&& request.writable()
                    &&& out.url@ == self.endpoint() + "/json_rpc"@
                    &&& out.content_type@ == "application/json"@
                    &&& exists|id: Seq<char>|
                        is_request_id(id) && out.body@ == #[trigger] json_text(
                            envelope_json(request@.method, request@.params, id),
                        )
                },
                None => !request.writable(),
            },
    {
        let call = build_call(request.method, request.params);
        let ghost id = call.id@;
        let r = self.post(call);
        proof {
            if r is Some {
                assert(is_request_id(id) && r->Some_0.body@ == json_text(
                    envelope_json(request@.method, request@.params, id),
                ));
            }
        }
        r
    }

    /// Turns the client into one for a daemon. The general client is used up.
    pub fn daemon(self) -> (client: DaemonClient)
        ensures
            client.endpoint() == self.endpoint(),
    {
        DaemonClient::over(self)
    }

    /// Turns the client into one for a wallet. The general client is used up.
    pub fn wallet(self) -> (client: WalletClient)
        ensures
            client.endpoint() == self.endpoint(),
    {
        WalletClient::over(self)
    }
}

} // verus!
