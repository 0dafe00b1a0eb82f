//! A client for the Source RCON remote console protocol.
//!
//! RCON frames each message as a packet: a size, an identifier, a type and a
//! text body, over a byte stream. A client authenticates with a password and
//! then sends commands, one at a time, and reads one packet in answer to
//! each.
//!
//! - [`packet`] holds the packet, its parts, and how it is written to and
//!   read from bytes.
//! - [`id_generator`] holds the sources of packet identifiers.
//! - [`client`] holds the client, which works on any [`client::Transport`],
//!   and the rules by which it judges an answer. The rules are functions of
//!   the bytes alone, so that a client on another kind of stream can share
//!   them.
//!
//! The functions of this crate are verified against their contracts, which
//! are stated over [`packet::PacketView`] and over sequences of bytes and
//! characters. One thing is taken on trust: what `String::from_utf8` does.

pub mod client;
pub mod id_generator;
pub mod packet;

pub use client::RCONClient;
pub use id_generator::SimpleIDGenerator;
pub use packet::Packet;
