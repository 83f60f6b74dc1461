//! A client for the logical replication of PostgreSQL.
//!
//! The client follows the log of a database and hands the rows of an event table
//! to a sink. This library holds what it decides on: the configuration, the messages
//! of the protocol, the decoding of rows, the delivery of events, and the record
//! of deliveries. It neither reads nor writes anything itself: whoever uses it
//! does what it asks for, and tells it what came of it.

pub mod column;
pub mod config;
pub mod decoder;
pub mod delivery;
pub mod email;
pub mod errors;
pub mod event_history;
pub mod event_row;
pub mod hook0;
pub mod hook0_error;
pub mod ids;
pub mod json;
pub mod messages;
pub mod pg_type;
pub mod protocol;
pub mod reconnect;
pub mod server;
pub mod sink;
pub mod text;
pub mod text_map;
pub mod time;
pub mod wire;
