//! Wire types for the st0x.pricing service and its consumers.
//!
//! Wire format is **CBOR** (RFC 8949) over WebSocket and over HTTP for
//! the `/snapshot` REST endpoint. All Rain Floats travel as raw 32-byte
//! byte strings (`WireFloat`) — same packed representation Solidity
//! sees as `bytes32`, no parse round-trip, no precision loss.
//!
//! The types here are the schema; the fixed-width values (`WireAddress`,
//! `WireFloat`, `WireU256`) carry their own verified decoding rules (see
//! `byte_string`), and the trading-schedule contract checks its schema
//! version and timestamps (see `trading_state`).

pub mod address;
pub mod byte_string;
pub mod float;
pub mod frames;
pub mod trading_state;
pub mod u256;

pub use address::WireAddress;
pub use float::WireFloat;
pub use frames::{
    ClientFrame, ErrorCode, ErrorFrame, HaltFrame, PingFrame, PongFrame, PriceFrame, Quote,
    ServerFrame, Snapshot, SubscribeFrame, Symbol, UnsubscribeFrame, Venue,
};
pub use u256::WireU256;
