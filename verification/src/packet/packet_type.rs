//! The role of a packet in the conversation.

use vstd::prelude::*;
use vstd::std_specs::cmp::PartialEqSpec;
use vstd::std_specs::convert::FromSpecImpl;

verus! {

/// The role of a packet.
///
/// The protocol gives [`PacketType::ExecCommand`] and
/// [`PacketType::AuthResponse`] the same number: which of the two a packet is
/// follows from what was sent before it, never from the packet. Two types are
/// equal when their numbers are.
#[derive(Debug, Clone, Copy)]
pub enum PacketType {
    /// The server's answer to an [`PacketType::ExecCommand`].
    ResponseValue,
    /// A command, from client to server.
    ExecCommand,
    /// The server's answer to an [`PacketType::Auth`].
    AuthResponse,
    /// The password, from client to server.
    Auth,
    /// Either [`PacketType::ExecCommand`] or [`PacketType::AuthResponse`]:
    /// what the number 2 decodes to.
    ExecOrAuthResp,
    /// Any other number, kept as it came.
    Raw(i32),
}

impl PacketType {
    /// The number that stands for this type on the wire.
    pub open spec fn wire(self) -> i32 {
        match self {
            PacketType::Auth => 3,
            PacketType::AuthResponse => 2,
            PacketType::ExecCommand => 2,
            PacketType::ResponseValue => 0,
            PacketType::ExecOrAuthResp => 2,
            PacketType::Raw(x) => x,
        }
    }

    /// The type that a number from the wire decodes to.
    pub open spec fn of_wire(value: i32) -> PacketType {
        if value == 0 {
            PacketType::ResponseValue
        } else if value == 2 {
            PacketType::ExecOrAuthResp
        } else if value == 3 {
            PacketType::Auth
        } else {
            PacketType::Raw(value)
        }
    }

    /// Decoding a number and encoding the type again gives the number
    /// back, and a type that went over the wire is equal to the one sent.
    pub proof fn lemma_wire_round_trip(value: i32, pkt_type: PacketType)
        ensures
            PacketType::of_wire(value).wire() == value,
            PacketType::of_wire(pkt_type.wire()).eq_spec(&pkt_type),
    {
    }

    /// Equality of types is reflexive, symmetric and transitive.
    pub proof fn lemma_eq_is_equivalence(a: PacketType, b: PacketType, c: PacketType)
        ensures
            a.eq_spec(&a),
            a.eq_spec(&b) ==> b.eq_spec(&a),
            a.eq_spec(&b) && b.eq_spec(&c) ==> a.eq_spec(&c),
    {
    }
}

impl From<u8> for PacketType {
    fn from(value: u8) -> (r: PacketType) {
        match value {
            0 => PacketType::ResponseValue,
            2 => PacketType::ExecOrAuthResp,
            3 => PacketType::Auth,
            x => PacketType::Raw(x as i32),
        }
    }
}

impl FromSpecImpl<u8> for PacketType {
    open spec fn obeys_from_spec() -> bool {
        true
    }

    open spec fn from_spec(v: u8) -> PacketType {
        PacketType::of_wire(v as i32)
    }
}

impl From<i32> for PacketType {
    fn from(value: i32) -> (r: PacketType) {
        match value {
            0 => PacketType::ResponseValue,
            2 => PacketType::ExecOrAuthResp,
            3 => PacketType::Auth,
            x => PacketType::Raw(x),
        }
    }
}

impl FromSpecImpl<i32> for PacketType {
    open spec fn obeys_from_spec() -> bool {
        true
    }

    open spec fn from_spec(v: i32) -> PacketType {
        PacketType::of_wire(v)
    }
}

impl From<&i32> for PacketType {
    fn from(value: &i32) -> (r: PacketType) {
        match value {
            0 => PacketType::ResponseValue,
            2 => PacketType::ExecOrAuthResp,
            3 => PacketType::Auth,
            x => PacketType::Raw(*x),
        }
    }
}

impl FromSpecImpl<&i32> for PacketType {
    open spec fn obeys_from_spec() -> bool {
        true
    }

    open spec fn from_spec(v: &i32) -> PacketType {
        PacketType::of_wire(*v)
    }
}

impl PartialEq for PacketType {
    fn eq(&self, other: &Self) -> (r: bool) {
        i32::from(self) == i32::from(other)
    }
}

impl vstd::std_specs::cmp::PartialEqSpecImpl for PacketType {
    open spec fn obeys_eq_spec() -> bool {
        true
    }

    open spec fn eq_spec(&self, other: &PacketType) -> bool {
        self.wire() == other.wire()
    }
}

impl Eq for PacketType {

}

impl From<PacketType> for i32 {
    fn from(value: PacketType) -> (r: i32) {
        match value {
            PacketType::Auth => 3,
            PacketType::AuthResponse => 2,
            PacketType::ExecCommand => 2,
            PacketType::ResponseValue => 0,
            PacketType::ExecOrAuthResp => 2,
            PacketType::Raw(x) => x,
        }
    }
}

impl FromSpecImpl<PacketType> for i32 {
    open spec fn obeys_from_spec() -> bool {
        true
    }

    open spec fn from_spec(v: PacketType) -> i32 {
        v.wire()
    }
}

impl From<&PacketType> for i32 {
    fn from(value: &PacketType) -> (r: i32) {
        match value {
            PacketType::Auth => 3,
            PacketType::AuthResponse => 2,
            PacketType::ExecCommand => 2,
            PacketType::ResponseValue => 0,
            PacketType::ExecOrAuthResp => 2,
            PacketType::Raw(x) => *x,
        }
    }
}

impl FromSpecImpl<&PacketType> for i32 {
    open spec fn obeys_from_spec() -> bool {
        true
    }

    open spec fn from_spec(v: &PacketType) -> i32 {
        v.wire()
    }
}

} // verus!
