//! Client side of a small registration and heartbeat protocol spoken over
//! eight-frame multipart envelopes: the envelope codec, its validator, and
//! the client's state machine.

pub mod envelope;
pub mod client;
pub mod laws;
