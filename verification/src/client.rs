//! The blocking client: authenticate, then send commands one at a time.

use crate::id_generator::IdSource;
use crate::packet::packet_id::ID;
use crate::packet::{
    lemma_body_of_parse, lemma_parse_of_wire_bytes, Packet, PacketError, PacketType, PacketView, MAX_PACKET_SIZE,
    MAX_PAYLOAD_SIZE, MIN_PACKET_SIZE,
};
use vstd::prelude::*;
use vstd::std_specs::cmp::PartialEqSpec;
use vstd::utf8::encode_utf8;

verus! {

/// A connected byte stream in both directions.
pub trait Transport {
    /// The stream's own failure.
    type Error;

    /// Writes all of `bytes` to the stream.
    fn write_all(&mut self, bytes: &[u8]) -> Result<(), Self::Error>;

    /// Reads once and gives the bytes that came, `limit` at most.
    fn read(&mut self, limit: usize) -> Result<Vec<u8>, Self::Error>;
}

/// Why an exchange with the server failed.
#[derive(Debug, PartialEq, Eq)]
pub enum ClientError<E> {
    /// The stream failed.
    Transport(E),
    /// A packet could not be built or read, or the reply does not belong to
    /// the request.
    Protocol(PacketError),
    /// The server refused the password.
    AuthenticationRejected,
}

/// The identifier by which the server answers a wrong password.
pub open spec fn rejected_id() -> ID {
    ID(-1i32)
}

/// The part of what one read gave that is looked at: the first
/// [`MAX_PACKET_SIZE`] bytes.
pub open spec fn received(answer: Seq<u8>) -> Seq<u8> {
    if answer.len() <= MAX_PACKET_SIZE {
        answer
    } else {
        answer.take(MAX_PACKET_SIZE as int)
    }
}

/// What the bytes of one read mean as the answer to an authentication
/// request that carried `expected_id`.
///
/// The reply must be of the type of an authentication response. Then the
/// identifier -1 says that the password was refused, whatever the request
/// carried; any other identifier must be the request's.
pub open spec fn authentication_outcome<E>(answer: Seq<u8>, expected_id: ID) -> Result<
    (),
    ClientError<E>,
> {
    match PacketView::parse(received(answer)) {
        Err(error) => Err(ClientError::Protocol(error)),
        Ok(reply) => if !reply.pkt_type.eq_spec(&PacketType::AuthResponse) {
            Err(ClientError::Protocol(PacketError::UnexpectedType))
        } else if reply.id == rejected_id() {
            Err(ClientError::AuthenticationRejected)
        } else if reply.id == expected_id {
            Ok(())
        } else {
            Err(ClientError::Protocol(PacketError::UnexpectedID))
        },
    }
}

/// What the bytes of one read mean as the answer to a request that carried
/// `expected_id` and calls for a reply of `expected_type`: the reply's body,
/// if first the identifier and then the type are the expected ones.
pub open spec fn reply_outcome<E>(
    answer: Seq<u8>,
    expected_type: PacketType,
    expected_id: ID,
) -> Result<Seq<char>, ClientError<E>> {
    match PacketView::parse(received(answer)) {
        Err(error) => Err(ClientError::Protocol(error)),
        Ok(reply) => if reply.id != expected_id {
            Err(ClientError::Protocol(PacketError::UnexpectedID))
        } else if !reply.pkt_type.eq_spec(&expected_type) {
            Err(ClientError::Protocol(PacketError::UnexpectedType))
        } else {
            Ok(reply.body)
        },
    }
}

/// The bytes to write for a request. A body of [`MAX_PAYLOAD_SIZE`] bytes or
/// more is refused.
pub fn encode_request(pkt_type: PacketType, body: String, id: ID) -> (r: Result<
    Vec<u8>,
    PacketError,
>)
    ensures
        match r {
            Ok(bytes) => {
                &&& encode_utf8(body@).len() < MAX_PAYLOAD_SIZE
                &&& bytes@ == PacketView::framed(pkt_type, body@, id).wire_bytes()
            },
            Err(error) => {
                &&& encode_utf8(body@).len() >= MAX_PAYLOAD_SIZE
                &&& error == PacketError::InvalidPayloadLength
            },
        },
{
    match Packet::new(pkt_type, body, id) {
        Ok(packet) => Ok(Vec::<u8>::from(packet)),
        Err(error) => Err(error),
    }
}

/// The packet in the bytes that one read gave.
fn received_packet(answer: &[u8]) -> (r: Result<Packet, PacketError>)
    ensures
        match r {
            Ok(packet) => PacketView::parse(received(answer@)) == Ok::<PacketView, PacketError>(
                packet@,
            ),
            Err(error) => PacketView::parse(received(answer@)) == Err::<PacketView, PacketError>(
                error,
            ),
        },
{
    if answer.len() <= MAX_PACKET_SIZE {
        Packet::try_from(answer)
    } else {
        Packet::try_from(&answer[0..MAX_PACKET_SIZE])
    }
}

/// Judges the answer to an authentication request.
pub fn check_authentication<E>(answer: &[u8], expected_id: ID) -> (r: Result<(), ClientError<E>>)
    ensures
        r == authentication_outcome::<E>(answer@, expected_id),
{
    let packet = match received_packet(answer) {
        Ok(packet) => packet,
        Err(error) => {
            return Err(ClientError::Protocol(error));
        },
    };
    if packet.get_type() != PacketType::AuthResponse {
        return Err(ClientError::Protocol(PacketError::UnexpectedType));
    }
    let packet_id = packet.get_id();
    if packet_id == ID::from(-1) {
        Err(ClientError::AuthenticationRejected)
    } else if expected_id == packet_id {
        Ok(())
    } else {
        Err(ClientError::Protocol(PacketError::UnexpectedID))
    }
}

/// Judges the answer to a request and gives the reply's body.
pub fn check_reply<E>(answer: &[u8], expected_type: PacketType, expected_id: ID) -> (r: Result<
    String,
    ClientError<E>,
>)
    ensures
        match r {
            Ok(body) => reply_outcome::<E>(answer@, expected_type, expected_id) == Ok::<
                Seq<char>,
                ClientError<E>,
            >(body@),
            Err(error) => reply_outcome::<E>(answer@, expected_type, expected_id) == Err::<
                Seq<char>,
                ClientError<E>,
            >(error),
        },
{
    let packet = match received_packet(answer) {
        Ok(packet) => packet,
        Err(error) => {
            return Err(ClientError::Protocol(error));
        },
    };
    if packet.get_id() != expected_id {
        return Err(ClientError::Protocol(PacketError::UnexpectedID));
    }
    if packet.get_type() != expected_type {
        return Err(ClientError::Protocol(PacketError::UnexpectedType));
    }
    Ok(packet.get_body())
}

/// An answer whose type is that of an authentication response and whose
/// identifier is the request's is accepted, unless that identifier is -1.
pub proof fn lemma_authentication_accepted<E>(reply: PacketView, sent: ID)
    requires
        reply.is_whole(),
        reply.wire_bytes().len() <= MAX_PACKET_SIZE,
        reply.pkt_type.eq_spec(&PacketType::AuthResponse),
        reply.id == sent,
        sent != rejected_id(),
    ensures
        authentication_outcome::<E>(reply.wire_bytes(), sent) == Ok::<(), ClientError<E>>(()),
{
    lemma_parse_of_wire_bytes(reply);
}

/// An authentication response with the identifier -1 means that the password
/// was refused, whatever identifier the request carried.
pub proof fn lemma_authentication_rejected<E>(reply: PacketView, sent: ID)
    requires
        reply.is_whole(),
        reply.wire_bytes().len() <= MAX_PACKET_SIZE,
        reply.pkt_type.eq_spec(&PacketType::AuthResponse),
        reply.id == rejected_id(),
    ensures
        authentication_outcome::<E>(reply.wire_bytes(), sent) == Err::<(), ClientError<E>>(
            ClientError::AuthenticationRejected,
        ),
{
    lemma_parse_of_wire_bytes(reply);
}

/// An authentication response with an identifier that is neither -1 nor the
/// request's is out of step.
pub proof fn lemma_authentication_out_of_step<E>(reply: PacketView, sent: ID)
    requires
        reply.is_whole(),
        reply.wire_bytes().len() <= MAX_PACKET_SIZE,
        reply.pkt_type.eq_spec(&PacketType::AuthResponse),
        reply.id != rejected_id(),
        reply.id != sent,
    ensures
        authentication_outcome::<E>(reply.wire_bytes(), sent) == Err::<(), ClientError<E>>(
            ClientError::Protocol(PacketError::UnexpectedID),
        ),
{
    lemma_parse_of_wire_bytes(reply);
}

/// The identifier is judged before the type: a reply with another identifier
/// than the request's is refused for its identifier, whatever its type.
pub proof fn lemma_reply_identifier_first<E>(
    reply: PacketView,
    expected_type: PacketType,
    sent: ID,
)
    requires
        reply.is_whole(),
        reply.wire_bytes().len() <= MAX_PACKET_SIZE,
        reply.id != sent,
    ensures
        reply_outcome::<E>(reply.wire_bytes(), expected_type, sent) == Err::<
            Seq<char>,
            ClientError<E>,
        >(ClientError::Protocol(PacketError::UnexpectedID)),
{
    lemma_parse_of_wire_bytes(reply);
}

/// A reply with the request's identifier and the expected type gives its
/// body.
pub proof fn lemma_reply_accepted<E>(reply: PacketView, expected_type: PacketType, sent: ID)
    requires
        reply.is_whole(),
        reply.wire_bytes().len() <= MAX_PACKET_SIZE,
        reply.id == sent,
        reply.pkt_type.eq_spec(&expected_type),
    ensures
        reply_outcome::<E>(reply.wire_bytes(), expected_type, sent) == Ok::<
            Seq<char>,
            ClientError<E>,
        >(reply.body),
{
    lemma_parse_of_wire_bytes(reply);
}

/// A client on a stream that it owns. There is no client that has not
/// authenticated: [`RCONClient::new`] does so, or fails.
#[derive(Debug)]
pub struct RCONClient<T: Transport, I: IdSource> {
    socket: T,
    incremental_id: I,
}

impl<T: Transport, I: IdSource> RCONClient<T, I> {
    /// Takes the stream and the source of identifiers, and authenticates
    /// with `password`.
    pub fn new(socket: T, id_generator: I, password: String) -> (r: Result<
        RCONClient<T, I>,
        ClientError<T::Error>,
    >)
        ensures
            encode_utf8(password@).len() >= MAX_PAYLOAD_SIZE <==> r matches Err(
                ClientError::Protocol(PacketError::InvalidPayloadLength),
            ),
    {
        let mut client = RCONClient { socket, incremental_id: id_generator };
        match client.authenticate(password) {
            Ok(()) => Ok(client),
            Err(error) => Err(error),
        }
    }

    /// Draws the next identifier of the source, whatever that is. The
    /// stream is left as it was.
    fn next_id(&mut self) -> (id: ID)
        ensures
            final(self).socket == old(self).socket,
    {
        self.incremental_id.next_id()
    }

    /// Draws an identifier and writes a packet of it, `pkt_type` and `body`.
    fn send_packet(&mut self, pkt_type: PacketType, body: String) -> (r: Result<
        ID,
        ClientError<T::Error>,
    >)
        ensures
            encode_utf8(body@).len() >= MAX_PAYLOAD_SIZE <==> r matches Err(
                ClientError::Protocol(PacketError::InvalidPayloadLength),
            ),
            !(r matches Err(ClientError::AuthenticationRejected)),
    {
        let id = self.next_id();
        let bytes = match encode_request(pkt_type, body, id) {
            Ok(bytes) => bytes,
            Err(error) => {
                return Err(ClientError::Protocol(error));
            },
        };
        match self.socket.write_all(bytes.as_slice()) {
            Ok(()) => Ok(id),
            Err(error) => Err(ClientError::Transport(error)),
        }
    }

    /// Sends `password` and judges the server's answer by
    /// [`authentication_outcome`]. A password of [`MAX_PAYLOAD_SIZE`] bytes
    /// or more is refused before anything is written, and nothing else is
    /// refused for its length.
    pub fn authenticate(&mut self, password: String) -> (r: Result<(), ClientError<T::Error>>)
        ensures
            encode_utf8(password@).len() >= MAX_PAYLOAD_SIZE <==> r matches Err(
                ClientError::Protocol(PacketError::InvalidPayloadLength),
            ),
    {
        let used_id = match self.send_packet(PacketType::Auth, password) {
            Ok(id) => id,
            Err(error) => {
                return Err(error);
            },
        };
        self.wait_authentication(used_id)
    }

    /// Reads once and judges what came by [`authentication_outcome`], as
    /// the answer to an authentication request that carried `expected_id`.
    /// A failure of the stream is handed on.
    ///
    /// Whatever comes: a request that carried -1 is never accepted, no
    /// failure is one of a body's length, and the source of identifiers is
    /// left as it was.
    fn wait_authentication(&mut self, expected_id: ID) -> (r: Result<(), ClientError<T::Error>>)
        ensures
            expected_id == rejected_id() ==> r is Err,
            !(r matches Err(ClientError::Protocol(PacketError::InvalidPayloadLength))),
            final(self).incremental_id == old(self).incremental_id,
    {
        match self.socket.read(MAX_PACKET_SIZE) {
            Ok(answer) => check_authentication(answer.as_slice(), expected_id),
            Err(error) => Err(ClientError::Transport(error)),
        }
    }

    /// Reads once and judges what came by [`reply_outcome`], as the answer
    /// to a request that carried `expected_id` and calls for a reply of
    /// `expected_type`. A failure of the stream is handed on.
    ///
    /// Whatever comes: a body that is given fits, with the fixed fields and
    /// the terminator, into [`MAX_PACKET_SIZE`] bytes, no failure is one of
    /// a body's length or a refused password, and the source of identifiers
    /// is left as it was.
    fn recv_packet(&mut self, expected_type: PacketType, expected_id: ID) -> (r: Result<
        String,
        ClientError<T::Error>,
    >)
        ensures
            r matches Ok(body) ==> encode_utf8(body@).len() + MIN_PACKET_SIZE + 4
                <= MAX_PACKET_SIZE,
            !(r matches Err(ClientError::Protocol(PacketError::InvalidPayloadLength))),
            !(r matches Err(ClientError::AuthenticationRejected)),
            final(self).incremental_id == old(self).incremental_id,
    {
        match self.socket.read(MAX_PACKET_SIZE) {
            Ok(answer) => {
                proof {
                    if PacketView::parse(received(answer@)) is Ok {
                        lemma_body_of_parse(received(answer@));
                    }
                }
                check_reply(answer.as_slice(), expected_type, expected_id)
            },
            Err(error) => Err(ClientError::Transport(error)),
        }
    }

    /// Sends `cmd` and judges the server's answer, which is one packet, by
    /// [`reply_outcome`]: the result is the body of that packet. A command of
    /// [`MAX_PAYLOAD_SIZE`] bytes or more is refused before anything is
    /// written, and nothing else is refused for its length.
    pub fn send_command(&mut self, cmd: String) -> (r: Result<String, ClientError<T::Error>>)
        ensures
            encode_utf8(cmd@).len() >= MAX_PAYLOAD_SIZE <==> r matches Err(
                ClientError::Protocol(PacketError::InvalidPayloadLength),
            ),
            !(r matches Err(ClientError::AuthenticationRejected)),
    {
        let used_id = match self.send_packet(PacketType::ExecCommand, cmd) {
            Ok(id) => id,
            Err(error) => {
                return Err(error);
            },
        };
        self.recv_packet(PacketType::ResponseValue, used_id)
    }
}

} // verus!
