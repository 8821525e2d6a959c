use vstd::prelude::*;

use crate::generators::Generator;

verus! {

/// Ticks per second asked of a packet generator's event generator: a microsecond scale.
pub const RESOLUTION: u32 = 1_000_000;

/// A packet stamped with the tick at which it was generated.
#[derive(Clone, Copy, Debug, PartialEq, Eq, Structural)]
pub struct Packet(pub u32);

/// Generates packets at the times that an event generator dictates.
pub struct PacketGenerator<G: Generator> {
    /// The last tick at which a packet was generated.
    pub last_gen: u32,
    /// The ticks from `last_gen` to the next packet.
    pub till_next: u32,
    pub tg: G,
}

impl<G: Generator> PacketGenerator<G> {
    /// A generator whose first packet is due at tick 0.
    pub fn new(tg: G) -> (r: PacketGenerator<G>)
        ensures
            r.last_gen == 0,
            r.till_next == 0,
            r.tg == tg,
    {
        PacketGenerator { last_gen: 0, till_next: 0, tg }
    }

    /// Generates a packet stamped `time` where `time` is the tick at which the next one is due;
    /// the time of the following one is then drawn from the event generator.
    pub fn next_packet(&mut self, time: u32) -> (r: Option<Packet>)
        requires
            old(self).last_gen <= time,
        ensures
            final(self).tg == old(self).tg,
            if time - old(self).last_gen == old(self).till_next {
                &&& r == Some(Packet(time))
                &&& final(self).last_gen == time
                &&& old(self).tg.admits(RESOLUTION, final(self).till_next)
            } else {
                &&& r is None
                &&& final(self).last_gen == old(self).last_gen
                &&& final(self).till_next == old(self).till_next
            },
    {
        if time - self.last_gen == self.till_next {
            self.last_gen = time;
            self.till_next = self.tg.next_event(RESOLUTION);
            Some(Packet(time))
        } else {
            None
        }
    }
}

} // verus!
