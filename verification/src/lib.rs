//! Typed client core for the JSON-RPC interface of a Monero daemon and wallet.
//!
//! The crate turns typed arguments into JSON-RPC calls and validates replies
//! into typed records. It performs no network traffic itself: a caller posts
//! the prepared request and hands the reply text back.
//!
//! A call runs in three steps. A role client (`DaemonClient`,
//! `RegtestDaemonClient`, `WalletClient`) builds the `Request` for a
//! procedure. `RpcClient::request` turns it into the `HttpRequest` to post.
//! What comes back goes through `receive` and then through the `_reply`
//! function of the procedure, which gives the typed result or the error.

pub mod address;
pub mod client;
pub mod codec;
pub mod daemon;
pub mod envelope;
pub mod error;
pub mod hash;
pub mod json;
pub mod priority;
pub mod status;
pub mod text;
pub mod wallet;

pub use address::Address;
pub use client::{receive, HttpRequest, Request, RpcClient};
pub use daemon::{
    BlockCount, BlockTemplate, DaemonClient, GenerateBlocksResponse, RegtestDaemonClient,
};
pub use envelope::{build_call, decode_response, CallEnvelope, Params};
pub use error::{ClientError, DecodeError, FormatError, RemoteError};
pub use hash::{BlockHash, BlockHashingBlob, HashString, HashType, PaymentId};
pub use json::Json;
pub use priority::TransferPriority;
pub use status::{unwrap_status, MoneroResult, Status};
pub use wallet::{
    BalanceData, Destinations, SubaddressBalanceData, TransferData, WalletClient,
};
