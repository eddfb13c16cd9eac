//! Transport and session core of an instant-messaging protocol client.
//!
//! The crate holds the state that many tasks of a client share, and the
//! decisions taken on it: sequence allocation, correlation of replies with
//! the requests that wait for them, the keep-alive policy, the message
//! synchronisation cursor and the persisted session token.

pub mod api;
pub mod buffer;
pub mod channel;
pub mod client;
pub mod correlation;
pub mod error;
pub mod heartbeat;
pub mod name_table;
pub mod packet;
pub mod sequence;
pub mod signature;
pub mod sync;
pub mod token;
