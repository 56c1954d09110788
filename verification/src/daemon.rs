//! The daemon's procedures: what is asked, and what the answers hold.

use vstd::prelude::*;
use crate::address::Address;
use crate::client::{reply_of, Request, RequestView, RpcClient};
use crate::envelope::{decode_response, Params, ParamsValue};
use crate::error::{ClientError, ClientFault, DecodeError};
use crate::hash::{hash_field, hash_of_json, BlockHash, BlockHashingBlob, HashString, HashType};
use crate::json::{items_view, Json, JsonValue, ObjectBuilder};
use crate::status::{status_of, unwrap_status};

verus! {

/// How many blocks the chain has.
#[derive(Clone, Debug, PartialEq, Eq)]
pub struct BlockCount {
    pub count: u128,
}

/// What `generateblocks` answers: the height of the chain afterwards.
#[derive(Clone, Debug, PartialEq, Eq)]
pub struct GenerateBlocksResponse {
    pub height: u128,
}

/// A block for a miner to work on.
#[derive(Clone, Debug, PartialEq, Eq)]
pub struct BlockTemplate {
    pub blockhashing_blob: HashString<BlockHashingBlob>,
    pub blocktemplate_blob: String,
    pub difficulty: u64,
    pub expected_reward: u64,
    pub height: u64,
    pub prev_hash: HashString<BlockHash>,
    pub reserved_offset: u64,
    pub untrusted: bool,
}

/// A block template as values.
pub struct BlockTemplateView {
    pub blockhashing_blob: Seq<u8>,
    pub blocktemplate_blob: Seq<char>,
    pub difficulty: u64,
    pub expected_reward: u64,
    pub height: u64,
    pub prev_hash: Seq<u8>,
    pub reserved_offset: u64,
    pub untrusted: bool,
}

impl View for BlockTemplate {
    type V = BlockTemplateView;

    open spec fn view(&self) -> BlockTemplateView {
        BlockTemplateView {
            blockhashing_blob: self.blockhashing_blob.0.bytes_view(),
            blocktemplate_blob: self.blocktemplate_blob@,
            difficulty: self.difficulty,
            expected_reward: self.expected_reward,
            height: self.height,
            prev_hash: self.prev_hash.0.bytes_view(),
            reserved_offset: self.reserved_offset,
            untrusted: self.untrusted,
        }
    }
}

/// What a payload gives once its status is checked: nothing is decoded
/// unless the payload carries the success tag.
pub open spec fn with_status<T>(
    value: JsonValue,
    decoded: Result<T, DecodeError>,
) -> Result<T, DecodeError> {
    match status_of(value) {
        Ok(_) => decoded,
        Err(e) => Err(e),
    }
}

/// The block count that a record holds in its member `count`.
pub open spec fn block_count_of(value: JsonValue) -> Result<u128, DecodeError> {
    match value.u64_field("count"@) {
        Ok(n) => Ok(n as u128),
        Err(e) => Err(e),
    }
}

/// The height that a record holds in its member `height`.
pub open spec fn generated_height_of(value: JsonValue) -> Result<u128, DecodeError> {
    match value.u64_field("height"@) {
        Ok(n) => Ok(n as u128),
        Err(e) => Err(e),
    }
}

/// The block template that a record holds. The members are read in the
/// order of the fields, and the first that is missing or ill-formed decides
/// the error; members that the template does not know are passed over.
pub open spec fn block_template_of(value: JsonValue) -> Result<BlockTemplateView, DecodeError> {
    let hashing_blob = hash_field(value, "blockhashing_blob"@, 76);
    let template_blob = value.text_field("blocktemplate_blob"@);
    let difficulty = value.u64_field("difficulty"@);
    let expected_reward = value.u64_field("expected_reward"@);
    let height = value.u64_field("height"@);
    let prev_hash = hash_field(value, "prev_hash"@, 32);
    let reserved_offset = value.u64_field("reserved_offset"@);
    let untrusted = value.bool_field("untrusted"@);
    if hashing_blob is Err {
        Err(hashing_blob->Err_0)
    } else if template_blob is Err {
        Err(template_blob->Err_0)
    } else if difficulty is Err {
        Err(difficulty->Err_0)
    } else if expected_reward is Err {
        Err(expected_reward->Err_0)
    } else if height is Err {
        Err(height->Err_0)
    } else if prev_hash is Err {
        Err(prev_hash->Err_0)
    } else if reserved_offset is Err {
        Err(reserved_offset->Err_0)
    } else if untrusted is Err {
        Err(untrusted->Err_0)
    } else {
        Ok(
            BlockTemplateView {
                blockhashing_blob: hashing_blob->Ok_0,
                blocktemplate_blob: template_blob->Ok_0,
                difficulty: difficulty->Ok_0,
                expected_reward: expected_reward->Ok_0,
                height: height->Ok_0,
                prev_hash: prev_hash->Ok_0,
                reserved_offset: reserved_offset->Ok_0,
                untrusted: untrusted->Ok_0,
            },
        )
    }
}

/// The block hash that a value holds: the text of 32 bytes.
pub open spec fn block_hash_of(value: JsonValue) -> Result<Seq<u8>, DecodeError> {
    hash_of_json(value, 32)
}

impl BlockCount {
    /// Reads a block count from a record.
    pub fn from_json(value: &Json) -> (r: Result<BlockCount, DecodeError>)
        ensures
            match r {
                Ok(c) => block_count_of(value@) == Ok::<u128, DecodeError>(c.count),
                Err(e) => block_count_of(value@) == Err::<u128, DecodeError>(e),
            },
    {
        match value.u64_field("count") {
            Ok(n) => Ok(BlockCount { count: n as u128 }),
            Err(e) => Err(e),
        }
    }
}

impl GenerateBlocksResponse {
    /// Reads the answer to `generateblocks` from a record.
    pub fn from_json(value: &Json) -> (r: Result<GenerateBlocksResponse, DecodeError>)
        ensures
            match r {
                Ok(g) => generated_height_of(value@) == Ok::<u128, DecodeError>(g.height),
                Err(e) => generated_height_of(value@) == Err::<u128, DecodeError>(e),
            },
    {
        match value.u64_field("height") {
            Ok(n) => Ok(GenerateBlocksResponse { height: n as u128 }),
            Err(e) => Err(e),
        }
    }
}

impl BlockTemplate {
    /// Reads a block template from a record.
    pub fn from_json(value: &Json) -> (r: Result<BlockTemplate, DecodeError>)
        ensures
            match r {
                Ok(t) => block_template_of(value@) == Ok::<BlockTemplateView, DecodeError>(t@),
                Err(e) => block_template_of(value@) == Err::<BlockTemplateView, DecodeError>(e),
            },
    {
        let blockhashing_blob = match HashString::<BlockHashingBlob>::deserialize_field(
            value,
            "blockhashing_blob",
        ) {
            Ok(x) => x,
            Err(e) => { return Err(e); },
        };
        let blocktemplate_blob = match value.text_field("blocktemplate_blob") {
            Ok(x) => x,
            Err(e) => { return Err(e); },
        };
        let difficulty = match value.u64_field("difficulty") {
            Ok(x) => x,
            Err(e) => { return Err(e); },
        };
        let expected_reward = match value.u64_field("expected_reward") {
            Ok(x) => x,
            Err(e) => { return Err(e); },
        };
        let height = match value.u64_field("height") {
            Ok(x) => x,
            Err(e) => { return Err(e); },
        };
        let prev_hash = match HashString::<BlockHash>::deserialize_field(value, "prev_hash") {
            Ok(x) => x,
            Err(e) => { return Err(e); },
        };
        let reserved_offset = match value.u64_field("reserved_offset") {
            Ok(x) => x,
            Err(e) => { return Err(e); },
        };
        let untrusted = match value.bool_field("untrusted") {
            Ok(x) => x,
            Err(e) => { return Err(e); },
        };
        Ok(
            BlockTemplate {
                blockhashing_blob,
                blocktemplate_blob,
                difficulty,
                expected_reward,
                height,
                prev_hash,
                reserved_offset,
                untrusted,
            },
        )
    }
}

/// A client for the procedures of a daemon.
#[derive(Debug)]
pub struct DaemonClient {
    inner: RpcClient,
}

/// A daemon client that also offers what only a regression-test network
/// allows. It is made from a daemon client, which is used up.
#[derive(Debug)]
pub struct RegtestDaemonClient(pub DaemonClient);

impl DaemonClient {
    /// The address of the endpoint.
    pub closed spec fn endpoint(&self) -> Seq<char> {
        self.inner.endpoint()
    }

    /// A daemon client that speaks through `inner`.
    pub(crate) fn over(inner: RpcClient) -> (client: DaemonClient)
        ensures
            client.endpoint() == inner.endpoint(),
    {
        DaemonClient { inner }
    }

    /// The general client underneath.
    pub fn transport(&self) -> (inner: &RpcClient)
        ensures
            inner.endpoint() == self.endpoint(),
    {
        &self.inner
    }

    /// The call `get_block_count`, without parameters.
    pub fn get_block_count(&self) -> (request: Request)
        ensures
            request@ == (RequestView {
                method: "get_block_count"@,
                params: ParamsValue::List(Seq::empty()),
            }),
            request.writable(),
    {
        let items: Vec<Json> = Vec::new();
        assert(items_view(items@) =~= Seq::<JsonValue>::empty());
        Request { method: "get_block_count", params: Params::List(items) }
    }

    /// Reads the reply to `get_block_count`: a record with the success tag
    /// and the count.
    pub fn get_block_count_reply(reply: &Json) -> (r: Result<u128, ClientError>)
        ensures
            match r {
                Ok(count) => reply_of(
                    reply@,
                    |v: JsonValue| with_status(v, block_count_of(v)),
                ) == Ok::<u128, ClientFault>(count),
                Err(e) => reply_of(reply@, |v: JsonValue| with_status(v, block_count_of(v)))
                    == Err::<u128, ClientFault>(e@),
            },
    {
        let result = match decode_response(reply) {
            Ok(result) => result,
            Err(e) => { return Err(e); },
        };
        let payload = match unwrap_status(result) {
            Ok(wrapped) => wrapped.into_inner(),
            Err(e) => { return Err(ClientError::Decode(e)); },
        };
        match BlockCount::from_json(payload) {
            Ok(c) => Ok(c.count),
            Err(e) => Err(ClientError::Decode(e)),
        }
    }

    /// The call `on_get_block_hash` with the height as its one parameter.
    pub fn on_get_block_hash(&self, height: u64) -> (request: Request)
        ensures
            request@ == (RequestView {
                method: "on_get_block_hash"@,
                params: ParamsValue::List(seq![JsonValue::Integer(height as int)]),
            }),
            request.writable(),
    {
        let mut items: Vec<Json> = Vec::new();
        items.push(Json::Unsigned(height));
        assert(items_view(items@) =~= seq![JsonValue::Integer(height as int)]);
        Request { method: "on_get_block_hash", params: Params::List(items) }
    }

    /// Reads the reply to `on_get_block_hash`: the hash as text, without a
    /// status tag.
    pub fn on_get_block_hash_reply(reply: &Json) -> (r: Result<BlockHash, ClientError>)
        ensures
            match r {
                Ok(hash) => reply_of(reply@, |v: JsonValue| block_hash_of(v)) == Ok::<
                    Seq<u8>,
                    ClientFault,
                >(hash.bytes_view()),
                Err(e) => reply_of(reply@, |v: JsonValue| block_hash_of(v)) == Err::<
                    Seq<u8>,
                    ClientFault,
                >(e@),
            },
    {
        let result = match decode_response(reply) {
            Ok(result) => result,
            Err(e) => { return Err(e); },
        };
        match HashString::<BlockHash>::deserialize(result) {
            Ok(h) => Ok(h.0),
            Err(e) => Err(ClientError::Decode(e)),
        }
    }

    /// The call `get_block_template` with the address and the reserve size,
    /// in this order.
    pub fn get_block_template(&self, wallet_address: Address, reserve_size: u64) -> (request:
        Request)
        ensures
            request@ == (RequestView {
                method: "get_block_template"@,
                params: ParamsValue::List(
                    seq![
                        JsonValue::Text(wallet_address@),
                        JsonValue::Integer(reserve_size as int),
                    ],
                ),
            }),
            request.writable(),
    {
        let mut items: Vec<Json> = Vec::new();
        items.push(Json::text(wallet_address.as_str()));
        items.push(Json::Unsigned(reserve_size));
        assert(items_view(items@) =~= seq![
            JsonValue::Text(wallet_address@),
            JsonValue::Integer(reserve_size as int),
        ]);
        Request { method: "get_block_template", params: Params::List(items) }
    }

    /// Reads the reply to `get_block_template`: a record with the success
    /// tag and the template.
    pub fn get_block_template_reply(reply: &Json) -> (r: Result<BlockTemplate, ClientError>)
        ensures
            match r {
                Ok(t) => reply_of(
                    reply@,
                    |v: JsonValue| with_status(v, block_template_of(v)),
                ) == Ok::<BlockTemplateView, ClientFault>(t@),
                Err(e) => reply_of(reply@, |v: JsonValue| with_status(v, block_template_of(v)))
                    == Err::<BlockTemplateView, ClientFault>(e@),
            },
    {
        let result = match decode_response(reply) {
            Ok(result) => result,
            Err(e) => { return Err(e); },
        };
        let payload = match unwrap_status(result) {
            Ok(wrapped) => wrapped.into_inner(),
            Err(e) => { return Err(ClientError::Decode(e)); },
        };
        match BlockTemplate::from_json(payload) {
            Ok(t) => Ok(t),
            Err(e) => Err(ClientError::Decode(e)),
        }
    }

    /// The call `submit_block` with the block blob as its one parameter.
    pub fn submit_block(&self, block_blob_data: String) -> (request: Request)
        ensures
            request@ == (RequestView {
                method: "submit_block"@,
                params: ParamsValue::List(seq![JsonValue::Text(block_blob_data@)]),
            }),
            request.writable(),
    {
        let mut items: Vec<Json> = Vec::new();
        let ghost blob = block_blob_data@;
        items.push(Json::Text(block_blob_data));
        assert(items_view(items@) =~= seq![JsonValue::Text(blob)]);
        Request { method: "submit_block", params: Params::List(items) }
    }

    /// Reads the reply to `submit_block`: a text, without a status tag.
    pub fn submit_block_reply(reply: &Json) -> (r: Result<String, ClientError>)
        ensures
            match r {
                Ok(s) => reply_of(reply@, |v: JsonValue| v.as_text()) == Ok::<
                    Seq<char>,
                    ClientFault,
                >(s@),
                Err(e) => reply_of(reply@, |v: JsonValue| v.as_text()) == Err::<
                    Seq<char>,
                    ClientFault,
                >(e@),
            },
    {
        let result = match decode_response(reply) {
            Ok(result) => result,
            Err(e) => { return Err(e); },
        };
        match result.as_text() {
            Ok(s) => Ok(s.to_owned()),
            Err(e) => Err(ClientError::Decode(e)),
        }
    }

    /// Enables the procedures of a regression-test network. The daemon
    /// client is used up: what is returned holds it.
    pub fn regtest(self) -> (client: RegtestDaemonClient)
        ensures
            client.0 == self,
    {
        RegtestDaemonClient(self)
    }
}

impl core::ops::Deref for RegtestDaemonClient {
    type Target = DaemonClient;

    /// The daemon client underneath, for the procedures every daemon has.
    fn deref(&self) -> (client: &DaemonClient)
        ensures
            *client == self.0,
    {
        &self.0
    }
}

impl RegtestDaemonClient {
    /// The call `generateblocks` with the parameters `amount_of_blocks` and
    /// `wallet_address`, given by name.
    pub fn generate_blocks(&self, amount_of_blocks: u128, wallet_address: Address) -> (request:
        Request)
        requires
            amount_of_blocks <= u64::MAX,
        ensures
            request@ == (RequestView {
                method: "generateblocks"@,
                params: ParamsValue::Named(
                    Map::<Seq<char>, JsonValue>::empty().insert(
                        "amount_of_blocks"@,
                        JsonValue::Integer(amount_of_blocks as int),
                    ).insert("wallet_address"@, JsonValue::Text(wallet_address@)),
                ),
            }),
            request.writable(),
    {
        let mut builder = ObjectBuilder::new();
        builder.insert("amount_of_blocks", Json::Unsigned(amount_of_blocks as u64));
        builder.insert("wallet_address", Json::text(wallet_address.as_str()));
        Request { method: "generateblocks", params: Params::named(builder) }
    }

    /// Reads the reply to `generateblocks`: a record with the success tag
    /// and the new height.
    pub fn generate_blocks_reply(reply: &Json) -> (r: Result<GenerateBlocksResponse, ClientError>)
        ensures
            match r {
                Ok(g) => reply_of(
                    reply@,
                    |v: JsonValue| with_status(v, generated_height_of(v)),
                ) == Ok::<u128, ClientFault>(g.height),
                Err(e) => reply_of(reply@, |v: JsonValue| with_status(v, generated_height_of(v)))
                    == Err::<u128, ClientFault>(e@),
            },
    {
        let result = match decode_response(reply) {
            Ok(result) => result,
            Err(e) => { return Err(e); },
        };
        let payload = match unwrap_status(result) {
            Ok(wrapped) => wrapped.into_inner(),
            Err(e) => { return Err(ClientError::Decode(e)); },
        };
        match GenerateBlocksResponse::from_json(payload) {
            Ok(g) => Ok(g),
            Err(e) => Err(ClientError::Decode(e)),
        }
    }
}

} // verus!
