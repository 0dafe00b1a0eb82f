//! What can go wrong with a packet.

use std::string::FromUtf8Error;
use vstd::prelude::*;
use vstd::std_specs::convert::FromSpecImpl;

verus! {

/// The failures of building, reading and matching a [`crate::Packet`].
#[derive(Debug, Clone, Copy, PartialEq, Eq, Structural)]
pub enum PacketError {
    /// The bytes are too few: fewer than a packet's fixed fields and
    /// terminator take, or fewer than the size in them declares.
    ParseError,
    /// The body is not valid UTF-8.
    InvalidPacketBody,
    /// The body is longer than [`crate::packet::MAX_PAYLOAD_SIZE`] allows.
    InvalidPayloadLength,
    /// A reply carries another identifier than its request.
    UnexpectedID,
    /// A reply is of another type than the request calls for.
    UnexpectedType,
}

impl PacketError {
    /// The failure's name as text.
    pub open spec fn name_text(self) -> Seq<char> {
        match self {
            PacketError::ParseError => "ParseError"@,
            PacketError::InvalidPacketBody => "InvalidPacketBody"@,
            PacketError::InvalidPayloadLength => "InvalidPayloadLength"@,
            PacketError::UnexpectedID => "UnexpectedID"@,
            PacketError::UnexpectedType => "UnexpectedType"@,
        }
    }

    /// The failure's name, for the message of an error that stands for it
    /// elsewhere. It is the text that `{:?}` gives.
    pub fn name(self) -> (r: &'static str)
        ensures
            r@ == self.name_text(),
    {
        match self {
            PacketError::ParseError => "ParseError",
            PacketError::InvalidPacketBody => "InvalidPacketBody",
            PacketError::InvalidPayloadLength => "InvalidPayloadLength",
            PacketError::UnexpectedID => "UnexpectedID",
            PacketError::UnexpectedType => "UnexpectedType",
        }
    }
}

/// The error of `String::from_utf8`, carried through unread.
#[verifier::external_type_specification]
#[verifier::external_body]
pub struct ExFromUtf8Error(FromUtf8Error);

impl From<FromUtf8Error> for PacketError {
    fn from(_error: FromUtf8Error) -> (r: PacketError) {
        PacketError::InvalidPacketBody
    }
}

impl FromSpecImpl<FromUtf8Error> for PacketError {
    open spec fn obeys_from_spec() -> bool {
        true
    }

    open spec fn from_spec(v: FromUtf8Error) -> PacketError {
        PacketError::InvalidPacketBody
    }
}

} // verus!
