//! A mock transaction execution engine for smart-contract code, with a
//! scenario interpretation and verification layer, all behind verified
//! contracts.
//!
//! The engine applies a transaction descriptor to an in-memory World
//! State: it moves the carried value, runs the called endpoint's
//! instructions, handles nested synchronous, asynchronous and
//! transfer-and-execute calls, and rolls a failing frame back to the
//! snapshot taken on entry. Around it stand the token identifier model
//! with its reserved native marker, the value transfer resolver that
//! contract code queries for what was sent, the fixture interpreter that
//! turns loosely typed scenario records into descriptors, and the result
//! checker that matches logs and statuses against wildcard-capable
//! patterns.

pub mod big_uint;
pub mod byte_ops;
pub mod call_value;
pub mod check;
pub mod engine;
pub mod scenario;
pub mod token_identifier;
pub mod tx_input;
pub mod tx_log;
pub mod world_state;
