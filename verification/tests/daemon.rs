use monero_rpc::address::Address;
use monero_rpc::client::{Request, RpcClient};
use monero_rpc::daemon::{
    BlockCount, BlockTemplate, DaemonClient, GenerateBlocksResponse, RegtestDaemonClient,
};
use monero_rpc::envelope::Params;
use monero_rpc::error::{ClientError, DecodeError, FormatError, RemoteError};
use monero_rpc::hash::{BlockHash, BlockHashingBlob, HashString};
use monero_rpc::json::Json;
use monero_rpc::text::parse;

const ADDRESS: &str =
    "4ADT1BtbxqEWeMKp9GgPr2NeyJXXtNxvoDawpyA4WpzFcGcoHUvXeijE66DNfohE9r1bQYaBiQjEtKE7CtkTdLwiDznFzra";

fn object(members: Vec<(&str, Json)>) -> Json {
    Json::Object(members.into_iter().map(|(k, v)| (k.to_string(), v)).collect())
}

fn text(s: &str) -> Json {
    Json::Text(s.to_string())
}

fn result(value: Json) -> Json {
    object(vec![("id", text("0")), ("jsonrpc", text("2.0")), ("result", value)])
}

fn daemon() -> DaemonClient {
    RpcClient::new("http://localhost:18081".to_string()).daemon()
}

#[test]
fn address_is_read_by_the_monero_crate() {
    let address = Address::parse(ADDRESS).unwrap();
    assert_eq!(address.as_str(), ADDRESS);
    assert!(address.same(&address.clone()));
    assert_eq!(Address::parse(""), None);
    assert_eq!(Address::parse("not an address"), None);
    // one character changed: the checksum no longer fits
    let mut broken = ADDRESS.to_string();
    broken.replace_range(10..11, "2");
    assert_eq!(Address::parse(&broken), None);
}

#[test]
fn get_block_count_has_no_params() {
    assert_eq!(
        daemon().get_block_count(),
        Request { method: "get_block_count", params: Params::List(vec![]) }
    );
}

#[test]
fn get_block_count_reply_needs_status_and_count() {
    let reply = result(object(vec![("count", Json::Unsigned(993163)), ("status", text("OK"))]));
    assert_eq!(DaemonClient::get_block_count_reply(&reply), Ok(993163));

    let no_status = result(object(vec![("count", Json::Unsigned(1))]));
    assert_eq!(
        DaemonClient::get_block_count_reply(&no_status),
        Err(ClientError::Decode(DecodeError::BadStatus))
    );
    let bad_status = result(object(vec![("count", Json::Unsigned(1)), ("status", text("BUSY"))]));
    assert_eq!(
        DaemonClient::get_block_count_reply(&bad_status),
        Err(ClientError::Decode(DecodeError::BadStatus))
    );
    let no_count = result(object(vec![("status", text("OK"))]));
    assert_eq!(
        DaemonClient::get_block_count_reply(&no_count),
        Err(ClientError::Decode(DecodeError::MissingField))
    );
    let negative = result(object(vec![("status", text("OK")), ("count", Json::Signed(-1))]));
    assert_eq!(
        DaemonClient::get_block_count_reply(&negative),
        Err(ClientError::Decode(DecodeError::WrongType))
    );
    assert_eq!(
        DaemonClient::get_block_count_reply(&result(Json::Unsigned(5))),
        Err(ClientError::Decode(DecodeError::NotAnObject))
    );
    assert_eq!(
        BlockCount::from_json(&object(vec![("count", Json::Unsigned(8))])),
        Ok(BlockCount { count: 8 })
    );
}

#[test]
fn every_reply_passes_the_remote_error_on() {
    let reply =
        parse(r#"{"id":"0","jsonrpc":"2.0","error":{"code":-32601,"message":"Method not found"}}"#)
            .unwrap();
    let expected = || {
        ClientError::Remote(RemoteError { code: -32601, message: "Method not found".to_string() })
    };
    assert_eq!(DaemonClient::get_block_count_reply(&reply), Err(expected()));
    assert_eq!(DaemonClient::on_get_block_hash_reply(&reply), Err(expected()));
    assert_eq!(DaemonClient::get_block_template_reply(&reply), Err(expected()));
    assert_eq!(DaemonClient::submit_block_reply(&reply), Err(expected()));
    assert_eq!(RegtestDaemonClient::generate_blocks_reply(&reply), Err(expected()));
}

#[test]
fn on_get_block_hash_sends_the_height() {
    assert_eq!(
        daemon().on_get_block_hash(100),
        Request { method: "on_get_block_hash", params: Params::List(vec![Json::Unsigned(100)]) }
    );
}

#[test]
fn on_get_block_hash_reply_is_the_hash_itself() {
    let reply = result(text(&"aa".repeat(32)));
    assert_eq!(DaemonClient::on_get_block_hash_reply(&reply), Ok(BlockHash([0xaa; 32])));

    let short = result(text(&"aa".repeat(31)));
    assert_eq!(
        DaemonClient::on_get_block_hash_reply(&short),
        Err(ClientError::Decode(DecodeError::Format(FormatError::WrongLength)))
    );
    let odd = result(text("aaa"));
    assert_eq!(
        DaemonClient::on_get_block_hash_reply(&odd),
        Err(ClientError::Decode(DecodeError::Format(FormatError::OddLength)))
    );
    let not_hex = result(text(&"zz".repeat(32)));
    assert_eq!(
        DaemonClient::on_get_block_hash_reply(&not_hex),
        Err(ClientError::Decode(DecodeError::Format(FormatError::InvalidHexCharacter)))
    );
    let wrapped = result(object(vec![("status", text("OK"))]));
    assert_eq!(
        DaemonClient::on_get_block_hash_reply(&wrapped),
        Err(ClientError::Decode(DecodeError::WrongType))
    );
}

#[test]
fn get_block_template_sends_address_then_reserve_size() {
    let address = Address::parse(ADDRESS).unwrap();
    assert_eq!(
        daemon().get_block_template(address, 60),
        Request {
            method: "get_block_template",
            params: Params::List(vec![text(ADDRESS), Json::Unsigned(60)])
        }
    );
}

fn template_members() -> Vec<(&'static str, Json)> {
    vec![
        ("blockhashing_blob", text(&"0c".repeat(76))),
        ("blocktemplate_blob", text("0c0cdeadbeef")),
        ("difficulty", Json::Unsigned(61043624293)),
        ("expected_reward", Json::Unsigned(4771949057248)),
        ("height", Json::Unsigned(1561970)),
        ("prev_hash", text(&"3b".repeat(32))),
        ("reserved_offset", Json::Unsigned(129)),
        ("status", text("OK")),
        ("untrusted", Json::Bool(false)),
    ]
}

#[test]
fn get_block_template_reply_reads_every_field() {
    let reply = result(object(template_members()));
    assert_eq!(
        DaemonClient::get_block_template_reply(&reply),
        Ok(BlockTemplate {
            blockhashing_blob: HashString(BlockHashingBlob([0x0c; 76])),
            blocktemplate_blob: "0c0cdeadbeef".to_string(),
            difficulty: 61043624293,
            expected_reward: 4771949057248,
            height: 1561970,
            prev_hash: HashString(BlockHash([0x3b; 32])),
            reserved_offset: 129,
            untrusted: false,
        })
    );
}

#[test]
fn get_block_template_reply_names_the_first_fault() {
    for (name, fault) in [
        ("blockhashing_blob", DecodeError::MissingField),
        ("blocktemplate_blob", DecodeError::MissingField),
        ("difficulty", DecodeError::MissingField),
        ("expected_reward", DecodeError::MissingField),
        ("height", DecodeError::MissingField),
        ("prev_hash", DecodeError::MissingField),
        ("reserved_offset", DecodeError::MissingField),
        ("untrusted", DecodeError::MissingField),
        ("status", DecodeError::BadStatus),
    ] {
        let members: Vec<(&str, Json)> =
            template_members().into_iter().filter(|(k, _)| *k != name).collect();
        assert_eq!(
            DaemonClient::get_block_template_reply(&result(object(members))),
            Err(ClientError::Decode(fault))
        );
    }
    let mut members = template_members();
    members[0] = ("blockhashing_blob", text(&"0c".repeat(32)));
    members[5] = ("prev_hash", text("xyz"));
    assert_eq!(
        BlockTemplate::from_json(&object(members)),
        Err(DecodeError::Format(FormatError::WrongLength))
    );
    let mut members = template_members();
    members[8] = ("untrusted", Json::Unsigned(0));
    assert_eq!(BlockTemplate::from_json(&object(members)), Err(DecodeError::WrongType));
}

#[test]
fn submit_block_sends_the_blob() {
    assert_eq!(
        daemon().submit_block("0707e6bd".to_string()),
        Request { method: "submit_block", params: Params::List(vec![text("0707e6bd")]) }
    );
    assert_eq!(DaemonClient::submit_block_reply(&result(text("done"))), Ok("done".to_string()));
    assert_eq!(
        DaemonClient::submit_block_reply(&result(Json::Null)),
        Err(ClientError::Decode(DecodeError::WrongType))
    );
}

#[test]
fn regtest_holds_the_daemon_client() {
    let regtest = daemon().regtest();
    assert_eq!(
        regtest.get_block_count(),
        Request { method: "get_block_count", params: Params::List(vec![]) }
    );
    assert_eq!(regtest.0.transport().url(), "http://localhost:18081/json_rpc");
}

#[test]
fn generate_blocks_sends_its_params_by_name() {
    let regtest = daemon().regtest();
    let address = Address::parse(ADDRESS).unwrap();
    let request = regtest.generate_blocks(3, address);
    assert_eq!(request.method, "generateblocks");
    assert_eq!(
        request.params.into_json(),
        object(vec![("amount_of_blocks", Json::Unsigned(3)), ("wallet_address", text(ADDRESS))])
    );
}

#[test]
fn generate_blocks_reply_needs_status_and_height() {
    let reply = result(object(vec![("height", Json::Unsigned(12)), ("status", text("OK"))]));
    assert_eq!(
        RegtestDaemonClient::generate_blocks_reply(&reply),
        Ok(GenerateBlocksResponse { height: 12 })
    );
    let reply = result(object(vec![("height", Json::Unsigned(12)), ("status", text("ERROR"))]));
    assert_eq!(
        RegtestDaemonClient::generate_blocks_reply(&reply),
        Err(ClientError::Decode(DecodeError::BadStatus))
    );
    let reply = result(object(vec![("status", text("OK"))]));
    assert_eq!(
        RegtestDaemonClient::generate_blocks_reply(&reply),
        Err(ClientError::Decode(DecodeError::MissingField))
    );
}
