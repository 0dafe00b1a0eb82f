//! Sources of packet identifiers.

use crate::packet::packet_id::ID;
use vstd::prelude::*;

verus! {

/// A source of identifiers that never runs out.
pub trait IdSource {
    /// The next identifier.
    fn next_id(&mut self) -> ID;
}

/// Identifiers from a counter that starts at 0 and wraps around.
#[derive(Debug)]
pub struct SimpleIDGenerator(u32);

impl View for SimpleIDGenerator {
    type V = u32;

    /// The counter: the number of identifiers given so far, modulo 2^32.
    closed spec fn view(&self) -> u32 {
        self.0
    }
}

/// The counter value that follows `counter`: one more, and 0 after the
/// greatest.
pub open spec fn successor(counter: u32) -> u32 {
    if counter == u32::MAX {
        0
    } else {
        (counter + 1) as u32
    }
}

/// The counter after `steps` identifiers were drawn from a generator whose
/// counter was `counter`.
pub open spec fn counter_after(counter: u32, steps: nat) -> u32
    decreases steps,
{
    if steps == 0 {
        counter
    } else {
        successor(counter_after(counter, (steps - 1) as nat))
    }
}

/// Of a fresh generator, the call with the number `steps`, counted from 0,
/// finds the counter at `steps` modulo 2^32: the identifiers come as
/// `wrapping(0)`, `wrapping(1)`, `wrapping(2)` and so on, and after
/// `wrapping(u32::MAX)` the sequence starts again.
pub proof fn lemma_counter_of_fresh_generator(steps: nat)
    ensures
        counter_after(0, steps) == steps % 0x1_0000_0000,
    decreases steps,
{
    if steps > 0 {
        lemma_counter_of_fresh_generator((steps - 1) as nat);
    }
}

impl SimpleIDGenerator {
    /// A generator whose counter is 0.
    pub fn new() -> (r: SimpleIDGenerator)
        ensures
            r@ == 0,
    {
        SimpleIDGenerator(0)
    }

    /// The identifier of the counter, which then moves on by one. The result
    /// is never `None`.
    pub fn next(&mut self) -> (r: Option<ID>)
        ensures
            r == Some(ID::wrapping(old(self)@)),
            final(self)@ == successor(old(self)@),
    {
        Some(self.next_id())
    }
}

impl Default for SimpleIDGenerator {
    fn default() -> (r: SimpleIDGenerator)
        ensures
            r@ == 0,
    {
        SimpleIDGenerator::new()
    }
}

impl IdSource for SimpleIDGenerator {
    fn next_id(&mut self) -> (id: ID)
        ensures
            id == ID::wrapping(old(self)@),
            final(self)@ == successor(old(self)@),
    {
        let id = ID::from_wrapping(self.0);
        self.0 = self.0.wrapping_add(1);
        id
    }
}

} // verus!
