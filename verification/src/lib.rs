//! Delivery of webhook notifications from a durable work queue: the decisions
//! of the consumer and of the dispatcher, with their proofs.

pub mod address;
pub mod consumer;
pub mod destination;
pub mod dispatcher;
pub mod headers;
pub mod message;
pub mod outcome;
pub mod secret;
pub mod signature;
pub mod topology;
