//! Real-time event relay: clients subscribe to topics over a persistent
//! connection and receive event notifications and query replies on it.
//!
//! The crate holds the subscription index, the per-connection request
//! handling and the message codec. Socket handling and the calls to the
//! record store are left to the embedding program, which drives the
//! functions here with the frames it reads and the answers it gets.

pub mod codec;
pub mod connection;
pub mod event_dispatcher;
pub mod json;
pub mod laws;
pub mod replies;
pub mod server;
pub mod session;
pub mod text;
pub mod types;
