//! JSON-RPC calls to an EVM node: the request envelope, and the hex quantity
//! in the answer.
use vstd::prelude::*;
use crate::error::AdapterError;
use crate::hex::{decode_hex_quantity, hex_decode};
use crate::json::{field, field_of, str_at, str_of, JsonValue};

verus! {

/// The node methods that the exporter calls.
#[derive(Debug, Clone, Copy, PartialEq, Eq, Structural)]
pub enum RpcMethod {
    /// `eth_blockNumber`: the current block number.
    BlockNumber,
    /// `eth_gasPrice`: the current base fee.
    GasPrice,
}

pub open spec fn rpc_body(m: RpcMethod) -> Seq<char> {
    match m {
        RpcMethod::BlockNumber => "{\"jsonrpc\":\"2.0\",\"method\":\"eth_blockNumber\",\"params\":[],\"id\":1}"@,
        RpcMethod::GasPrice => "{\"jsonrpc\":\"2.0\",\"method\":\"eth_gasPrice\",\"params\":[],\"id\":1}"@,
    }
}

/// The JSON-RPC envelope that asks the node for `m`, without parameters.
pub fn rpc_request_body(m: RpcMethod) -> (r: String)
    ensures
        r@ == rpc_body(m),
{
    match m {
        RpcMethod::BlockNumber => String::from_str(
            "{\"jsonrpc\":\"2.0\",\"method\":\"eth_blockNumber\",\"params\":[],\"id\":1}",
        ),
        RpcMethod::GasPrice => String::from_str(
            "{\"jsonrpc\":\"2.0\",\"method\":\"eth_gasPrice\",\"params\":[],\"id\":1}",
        ),
    }
}

/// What the node's answer `doc` means: its `result` read as a hex quantity.
pub open spec fn rpc_outcome(doc: JsonValue) -> Result<u64, AdapterError> {
    match str_of(field_of(Some(doc), "result"@)) {
        None => Err(AdapterError::MissingField),
        Some(s) => match hex_decode(s) {
            Some(n) => Ok(n),
            None => Err(AdapterError::InvalidHex),
        },
    }
}

/// Reads the node's answer: `MissingField` without a string `result`,
/// `InvalidHex` where that string is not a hex quantity.
pub fn rpc_result(doc: &JsonValue) -> (r: Result<u64, AdapterError>)
    ensures
        r == rpc_outcome(*doc),
{
    match str_at(field(Some(doc), "result")) {
        None => Err(AdapterError::MissingField),
        Some(s) => match decode_hex_quantity(s) {
            Some(n) => Ok(n),
            None => Err(AdapterError::InvalidHex),
        },
    }
}

} // verus!
