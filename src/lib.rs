//! Decision logic of a pair of load-testing clients for a publish/subscribe
//! broker: payload generation, the message wire encoding, destination
//! selection, the HTTP form of a delivery, and the producer and consumer run
//! loops as state machines whose effects the caller performs.
pub mod consumer;
pub mod destination;
pub mod http;
pub mod message;
pub mod payload;
pub mod producer;
