//! The identifier that ties a reply to its request.

use crate::packet::little_endian::{le_bytes, to_le_bytes};
use std::cmp::Ordering;
use vstd::prelude::*;
use vstd::std_specs::convert::FromSpecImpl;

verus! {

/// The number a client puts into a request and the server echoes in its reply.
///
/// Every `i32` is a legal identifier. The server answers a failed
/// authentication with `-1`, whatever the request carried.
#[derive(Debug, Clone, Copy, PartialEq, Eq, Structural, Ord)]
pub struct ID(pub i32);

impl ID {
    /// The identifier derived from the counter value `id`: bit 28 of `id` is
    /// cleared, and the remaining 32 bits are read as a two's complement
    /// number. The sign bit is kept, so counters from `0x8000_0000` on give
    /// negative identifiers.
    pub open spec fn wrapping(id: u32) -> ID {
        let masked: int = if (id as int / 0x1000_0000) % 2 == 1 {
            id - 0x1000_0000
        } else {
            id as int
        };
        ID(
            if masked >= 0x8000_0000 {
                (masked - 0x1_0000_0000) as i32
            } else {
                masked as i32
            },
        )
    }

    /// The identifier of a counter is the counter under the mask
    /// `0xEFFFFFFF`, its bits read as a signed number.
    pub proof fn lemma_wrapping_is_the_mask(id: u32)
        ensures
            ID::wrapping(id).0 == (id & 0xEFFF_FFFF) as i32,
    {
        let masked: u32 = id & 0xEFFF_FFFF;
        assert(masked == if (id / 0x1000_0000) % 2 == 1 {
            (id - 0x1000_0000) as u32
        } else {
            id
        }) by (bit_vector)
            requires
                masked == id & 0xEFFF_FFFF,
        ;
        let value: i32 = masked as i32;
        assert(value == if masked >= 0x8000_0000 {
            masked - 0x1_0000_0000
        } else {
            masked as int
        }) by (bit_vector)
            requires
                value == masked as i32,
        ;
    }

    /// No counter value gives -1, the identifier by which a server refuses
    /// a password: bit 28 of what [`ID::wrapping`] gives is never set.
    pub proof fn lemma_wrapping_is_never_minus_one(id: u32)
        ensures
            ID::wrapping(id) != ID(-1i32),
    {
    }

    /// Derives an identifier from a counter by the mask `0xEFFFFFFF`.
    pub fn from_wrapping(id: u32) -> (r: ID)
        ensures
            r == ID::wrapping(id),
    {
        proof {
            ID::lemma_wrapping_is_the_mask(id);
        }
        ID(#[verifier::truncate] ((id & 0xEFFF_FFFF) as i32))
    }

    /// The identifier as four bytes, least significant byte first.
    pub fn to_le_bytes(self) -> (r: [u8; 4])
        ensures
            r@ == le_bytes(self.0),
    {
        to_le_bytes(self.0)
    }
}

impl From<ID> for i32 {
    fn from(value: ID) -> (r: i32) {
        value.0
    }
}

impl FromSpecImpl<ID> for i32 {
    open spec fn obeys_from_spec() -> bool {
        true
    }

    open spec fn from_spec(v: ID) -> i32 {
        v.0
    }
}

impl From<i32> for ID {
    fn from(value: i32) -> (r: ID) {
        ID(value)
    }
}

impl FromSpecImpl<i32> for ID {
    open spec fn obeys_from_spec() -> bool {
        true
    }

    open spec fn from_spec(v: i32) -> ID {
        ID(v)
    }
}

impl PartialOrd for ID {
    fn partial_cmp(&self, other: &Self) -> (r: Option<Ordering>) {
        if self.0 < other.0 {
            Some(Ordering::Less)
        } else if self.0 > other.0 {
            Some(Ordering::Greater)
        } else {
            Some(Ordering::Equal)
        }
    }
}

impl vstd::std_specs::cmp::PartialOrdSpecImpl for ID {
    open spec fn obeys_partial_cmp_spec() -> bool {
        true
    }

    open spec fn partial_cmp_spec(&self, other: &ID) -> Option<Ordering> {
        if self.0 < other.0 {
            Some(Ordering::Less)
        } else if self.0 > other.0 {
            Some(Ordering::Greater)
        } else {
            Some(Ordering::Equal)
        }
    }
}

} // verus!
