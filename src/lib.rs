//! Collection-and-merge pipeline of a metrics exporter for an on-chain
//! exchange: request encoding, response interpretation, the max-timestamp
//! rule, default-on-failure folding and the mapping onto instruments.
use vstd::prelude::*;

pub mod decimal;
pub mod hex;
pub mod error;
pub mod text;
pub mod json;
pub mod market;
pub mod rpc;
pub mod portfolio;
pub mod vault;
pub mod user;
pub mod protocol;
pub mod request;
pub mod snapshot;
pub mod registry;
