//! Ingestion core of a firehose topic tracker: frame decoding, event
//! parsing, keyword matching, identity resolution decisions, the per-event
//! storage sequence, the reconnect cycle and the broadcast slot.

pub mod auth;
pub mod config;
pub mod gemini;
pub mod hub;
pub mod identity;
pub mod json;
pub mod matcher;
pub mod message;
pub mod models;
pub mod processor;
pub mod rows;
pub mod slug;
pub mod supervisor;
pub mod text;
pub mod transport;
