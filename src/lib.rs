//! A fixed-size test payload for publish/subscribe benchmarks, and its
//! Protocol Buffers wire form.
pub mod message;
pub mod wire;
