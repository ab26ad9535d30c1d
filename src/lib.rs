//! Session layer of a chat client: the wire codec for the tagged message
//! envelope, the single connection slot, and the decisions of the read loop
//! and of the login handshake.

pub mod json;
pub mod protocol;
pub mod connection;
pub mod reader;
