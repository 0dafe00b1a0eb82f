//! The RCON packet, its parts and its wire format.

pub mod little_endian;
pub mod packet_error;
pub mod packet_id;
pub mod packet_type;

pub use crate::packet::packet_error::PacketError;
pub use crate::packet::packet_type::PacketType;

use crate::packet::little_endian::{
    from_le_bytes, le_bytes, le_value, lemma_bytes_of_value, lemma_value_of_bytes, to_le_bytes,
};
use crate::packet::packet_id::ID;
use std::string::FromUtf8Error;
use vstd::prelude::*;
use vstd::slice::slice_to_vec;
use vstd::std_specs::cmp::PartialEqSpec;
use vstd::std_specs::convert::{FromSpecImpl, TryFromSpecImpl};
use vstd::utf8::{decode_utf8, encode_utf8, valid_utf8};

verus! {

/// The least value of a packet's size field: identifier, type and the two
/// zero bytes, with an empty body.
pub const MIN_PACKET_SIZE: usize = 10;

/// The most bytes a packet takes on the wire, its size field included.
pub const MAX_PACKET_SIZE: usize = 4096 + 4;

/// The bound on a body's length in bytes: a body must stay below it.
pub const MAX_PAYLOAD_SIZE: usize = MAX_PACKET_SIZE - MIN_PACKET_SIZE;

/// One message of the protocol.
///
/// Two packets are equal when their sizes, their identifiers and their
/// bodies are the same and their types are equal.
#[derive(Debug)]
pub struct Packet {
    size: i32,
    id: ID,
    pkt_type: PacketType,
    body: String,
}

/// What a [`Packet`] holds.
pub struct PacketView {
    /// The declared number of bytes that follow the size field.
    pub size: i32,
    /// The identifier.
    pub id: ID,
    /// The type.
    pub pkt_type: PacketType,
    /// The text of the body.
    pub body: Seq<char>,
}

impl PacketView {
    /// The packet of `pkt_type`, `body` and `id` whose size fits the body.
    pub open spec fn framed(pkt_type: PacketType, body: Seq<char>, id: ID) -> PacketView {
        PacketView { size: (encode_utf8(body).len() + MIN_PACKET_SIZE) as i32, id, pkt_type, body }
    }

    /// The declared size is the size of the packet's fields: the body's
    /// bytes and [`MIN_PACKET_SIZE`] more.
    pub open spec fn size_fits_body(self) -> bool {
        self.size == encode_utf8(self.body).len() + MIN_PACKET_SIZE
    }

    /// The packet declares no more bytes than its fields take. So it is
    /// with every packet whose size fits its body.
    pub open spec fn is_whole(self) -> bool {
        self.size <= encode_utf8(self.body).len() + MIN_PACKET_SIZE
    }

    /// The packet on the wire: size, identifier and type, each as four
    /// little-endian bytes, then the body in UTF-8 and two zero bytes.
    pub open spec fn wire_bytes(self) -> Seq<u8> {
        le_bytes(self.size) + le_bytes(self.id.0) + le_bytes(self.pkt_type.wire()) + encode_utf8(
            self.body,
        ) + seq![0u8, 0u8]
    }

    /// The packet that `bytes` hold, or why they hold none.
    ///
    /// The bytes are too few if they are fewer than 14, which the fixed
    /// fields and the terminator take, or fewer than the declared size and
    /// the four bytes of the size field. The body is all that lies between
    /// the twelfth byte and the last two. The last two are not looked at,
    /// and a declared size that is less than what the bytes hold is taken
    /// as it is.
    pub open spec fn parse(bytes: Seq<u8>) -> Result<PacketView, PacketError> {
        if bytes.len() < MIN_PACKET_SIZE + 4 || bytes.len() < le_value(bytes.subrange(0, 4)) + 4 {
            Err(PacketError::ParseError)
        } else if !valid_utf8(bytes.subrange(12, bytes.len() - 2)) {
            Err(PacketError::InvalidPacketBody)
        } else {
            Ok(
                PacketView {
                    size: le_value(bytes.subrange(0, 4)),
                    id: ID(le_value(bytes.subrange(4, 8))),
                    pkt_type: PacketType::of_wire(le_value(bytes.subrange(8, 12))),
                    body: decode_utf8(bytes.subrange(12, bytes.len() - 2)),
                },
            )
        }
    }
}

/// The length on the wire is the body's length and 14 more; where the size
/// fits the body, that is the size and the four bytes of the size field.
pub proof fn lemma_wire_length(packet: PacketView)
    ensures
        packet.wire_bytes().len() == encode_utf8(packet.body).len() + MIN_PACKET_SIZE + 4,
        packet.size_fits_body() ==> packet.wire_bytes().len() == packet.size + 4,
{
}

/// A packet that declares more bytes than it has is not read back from its
/// own bytes: they are too few.
pub proof fn lemma_parse_of_short_bytes(packet: PacketView)
    requires
        !packet.is_whole(),
    ensures
        PacketView::parse(packet.wire_bytes()) == Err::<PacketView, PacketError>(
            PacketError::ParseError,
        ),
{
    assert(packet.wire_bytes().subrange(0, 4) =~= le_bytes(packet.size));
    lemma_value_of_bytes(packet.size);
}

/// A packet that is written to the wire and read again keeps its size, its
/// identifier and its body, and its type is equal to the one written. This
/// holds of every packet that declares no more bytes than it has, and so of
/// every packet that [`Packet::new`] builds.
pub proof fn lemma_parse_of_wire_bytes(packet: PacketView)
    requires
        packet.is_whole(),
    ensures
        PacketView::parse(packet.wire_bytes()) == Ok::<PacketView, PacketError>(
            PacketView { pkt_type: PacketType::of_wire(packet.pkt_type.wire()), ..packet },
        ),
        PacketType::of_wire(packet.pkt_type.wire()).eq_spec(&packet.pkt_type),
{
    let bytes = packet.wire_bytes();
    let body = encode_utf8(packet.body);
    assert(bytes.subrange(0, 4) =~= le_bytes(packet.size));
    assert(bytes.subrange(4, 8) =~= le_bytes(packet.id.0));
    assert(bytes.subrange(8, 12) =~= le_bytes(packet.pkt_type.wire()));
    assert(bytes.subrange(12, bytes.len() - 2) =~= body);
    lemma_value_of_bytes(packet.size);
    lemma_value_of_bytes(packet.id.0);
    lemma_value_of_bytes(packet.pkt_type.wire());
    vstd::utf8::encode_utf8_valid_utf8(packet.body);
    vstd::utf8::encode_utf8_decode_utf8(packet.body);
}

/// The body of a packet that was read is what lay between the fixed fields
/// and the last two bytes: in UTF-8 it takes 14 bytes less than there were.
pub proof fn lemma_body_of_parse(bytes: Seq<u8>)
    requires
        PacketView::parse(bytes) is Ok,
    ensures
        encode_utf8(PacketView::parse(bytes)->Ok_0.body) == bytes.subrange(12, bytes.len() - 2),
        encode_utf8(PacketView::parse(bytes)->Ok_0.body).len() + MIN_PACKET_SIZE + 4
            == bytes.len(),
{
    vstd::utf8::decode_utf8_encode_utf8(bytes.subrange(12, bytes.len() - 2));
}

/// Bytes that hold a packet and end in two zero bytes are the bytes that
/// the packet is written as.
pub proof fn lemma_wire_bytes_of_parse(bytes: Seq<u8>)
    requires
        PacketView::parse(bytes) is Ok,
        bytes[bytes.len() - 2] == 0,
        bytes[bytes.len() - 1] == 0,
    ensures
        PacketView::parse(bytes)->Ok_0.wire_bytes() == bytes,
{
    let packet = PacketView::parse(bytes)->Ok_0;
    lemma_bytes_of_value(bytes.subrange(0, 4));
    lemma_bytes_of_value(bytes.subrange(4, 8));
    lemma_bytes_of_value(bytes.subrange(8, 12));
    vstd::utf8::decode_utf8_encode_utf8(bytes.subrange(12, bytes.len() - 2));
    assert(packet.wire_bytes() =~= bytes);
}

impl View for Packet {
    type V = PacketView;

    closed spec fn view(&self) -> PacketView {
        PacketView { size: self.size, id: self.id, pkt_type: self.pkt_type, body: self.body@ }
    }
}

/// `String::from_utf8`: succeeds on exactly the byte strings that are valid
/// UTF-8, and the string it gives then holds those bytes.
#[verifier::external_body]
fn string_from_utf8(bytes: Vec<u8>) -> (r: Result<String, FromUtf8Error>)
    ensures
        r is Ok <==> valid_utf8(bytes@),
        r matches Ok(text) ==> encode_utf8(text@) == bytes@,
{
    String::from_utf8(bytes)
}

impl Packet {
    /// A packet for `body`, with the size that fits it.
    ///
    /// A body of [`MAX_PAYLOAD_SIZE`] bytes or more is refused.
    pub fn new(pkt_type: PacketType, body: String, id: ID) -> (r: Result<Packet, PacketError>)
        ensures
            match r {
                Ok(packet) => {
                    &&& encode_utf8(body@).len() < MAX_PAYLOAD_SIZE
                    &&& packet@ == PacketView::framed(pkt_type, body@, id)
                },
                Err(error) => {
                    &&& encode_utf8(body@).len() >= MAX_PAYLOAD_SIZE
                    &&& error == PacketError::InvalidPayloadLength
                },
            },
    {
        let length: usize = body.as_str().as_bytes().len();
        if length >= MAX_PAYLOAD_SIZE {
            return Err(PacketError::InvalidPayloadLength);
        }
        let size: i32 = (length + MIN_PACKET_SIZE) as i32;
        Ok(Packet::new_raw(pkt_type, body, size, id))
    }

    /// A packet of exactly these parts. Nothing is checked: the size need
    /// not fit the body.
    pub fn new_raw(pkt_type: PacketType, body: String, size: i32, id: ID) -> (r: Packet)
        ensures
            r@ == (PacketView { size, id, pkt_type, body: body@ }),
    {
        Packet { size, id, pkt_type, body }
    }

    /// The declared size.
    pub fn get_size(&self) -> (r: i32)
        ensures
            r == self@.size,
    {
        self.size
    }

    /// The identifier.
    pub fn get_id(&self) -> (r: ID)
        ensures
            r == self@.id,
    {
        self.id
    }

    /// A copy of the body.
    pub fn get_body(&self) -> (r: String)
        ensures
            r@ == self@.body,
    {
        self.body.clone()
    }

    /// The type.
    pub fn get_type(&self) -> (r: PacketType)
        ensures
            r == self@.pkt_type,
    {
        self.pkt_type
    }
}

impl PartialEq for Packet {
    fn eq(&self, other: &Self) -> (r: bool) {
        self.size == other.size && self.id == other.id && self.pkt_type == other.pkt_type
            && self.body == other.body
    }
}

impl vstd::std_specs::cmp::PartialEqSpecImpl for Packet {
    open spec fn obeys_eq_spec() -> bool {
        true
    }

    open spec fn eq_spec(&self, other: &Packet) -> bool {
        &&& self@.size == other@.size
        &&& self@.id == other@.id
        &&& self@.pkt_type.wire() == other@.pkt_type.wire()
        &&& self@.body == other@.body
    }
}

impl Eq for Packet {

}

impl From<Packet> for Vec<u8> {
    /// The packet as it goes over the wire.
    fn from(val: Packet) -> (r: Vec<u8>)
        ensures
            r@ == val@.wire_bytes(),
    {
        let mut output_vec: Vec<u8> = Vec::new();
        output_vec.extend_from_slice(to_le_bytes(val.size).as_slice());
        output_vec.extend_from_slice(to_le_bytes(i32::from(val.id)).as_slice());
        output_vec.extend_from_slice(to_le_bytes(i32::from(val.pkt_type)).as_slice());
        output_vec.extend_from_slice(val.body.as_str().as_bytes());
        output_vec.push(0u8);
        output_vec.push(0u8);
        assert(output_vec@ =~= val@.wire_bytes());
        output_vec
    }
}

impl FromSpecImpl<Packet> for Vec<u8> {
    open spec fn obeys_from_spec() -> bool {
        false
    }

    open spec fn from_spec(v: Packet) -> Vec<u8> {
        arbitrary()
    }
}

impl TryFrom<&[u8]> for Packet {
    type Error = PacketError;

    /// The packet that `value` holds.
    fn try_from(value: &[u8]) -> (r: Result<Packet, PacketError>)
        ensures
            match r {
                Ok(packet) => PacketView::parse(value@) == Ok::<PacketView, PacketError>(packet@),
                Err(error) => PacketView::parse(value@) == Err::<PacketView, PacketError>(error),
            },
    {
        if value.len() < MIN_PACKET_SIZE + 4 {
            return Err(PacketError::ParseError);
        }
        let body_end: usize = value.len() - 2;
        let size: i32 = from_le_bytes(value, 0);
        if size >= 0 && value.len() - 4 < size as usize {
            return Err(PacketError::ParseError);
        }
        let id: ID = ID::from(from_le_bytes(value, 4));
        let pkt_type: PacketType = PacketType::from(from_le_bytes(value, 8));
        let body: String = match string_from_utf8(slice_to_vec(&value[12..body_end])) {
            Ok(text) => text,
            Err(error) => {
                return Err(PacketError::from(error));
            },
        };
        proof {
            vstd::utf8::encode_utf8_decode_utf8(body@);
        }
        Ok(Packet::new_raw(pkt_type, body, size, id))
    }
}

impl TryFromSpecImpl<&[u8]> for Packet {
    open spec fn obeys_try_from_spec() -> bool {
        false
    }

    open spec fn try_from_spec(v: &[u8]) -> Result<Packet, PacketError> {
        arbitrary()
    }
}

} // verus!
