//! A gateway in front of a node that speaks only bidirectional streams: each
//! request becomes one round trip on a dedicated stream, and a subscription
//! becomes a relay of change notifications to one consumer.
pub mod auth;
pub mod convert;
pub mod error;
pub mod gateway;
pub mod ids;
pub mod models;
pub mod relay;
pub mod stream;
pub mod unary;
pub mod validate;
pub mod wire;
