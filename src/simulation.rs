use vstd::prelude::*;

use crate::generators::{Generator, Rate};
use crate::simulators::{Client, Packet, Server};

verus! {

/// A client feeding a server, moved on together one tick at a time.
pub struct Simulation<G: Generator> {
    pub client: Client<G>,
    pub server: Server,
    /// The length in bits of each packet the client generates.
    pub packet_size: u32,
}

impl<G: Generator> Simulation<G> {
    /// One for a packet in service, else zero.
    pub open spec fn in_service(&self) -> nat {
        if self.server.current() is Some {
            1
        } else {
            0
        }
    }

    /// Every packet generated is processed, dropped, waiting, or in service.
    pub open spec fn conserved(&self) -> bool {
        self.client.stats().packets_generated == self.server.stats().packets_processed
            + self.server.stats().packets_dropped + self.server.queue().len()
            + self.in_service()
    }

    pub open spec fn wf(&self) -> bool {
        &&& self.server.wf()
        &&& self.conserved()
    }

    /// A simulation with an empty system: a client driven by `generator` and a server at the
    /// given speed and buffer limit, both at `resolution` ticks per second.
    pub fn new(
        generator: G,
        resolution: u32,
        pspeed: Rate,
        buffer_limit: Option<usize>,
        packet_size: u32,
    ) -> (r: Simulation<G>)
        requires
            resolution > 0,
            pspeed.is_finite(),
        ensures
            r.wf(),
            r.client.resolution() == resolution,
            r.client.generator() == generator,
            generator.admits(resolution, r.client.ticker()),
            r.client.stats().packets_generated == 0,
            r.server.resolution() == resolution,
            r.server.pspeed() == pspeed,
            r.server.buffer_limit() == buffer_limit,
            r.server.queue().len() == 0,
            r.server.current() is None,
            r.server.stats().idle_count == 0,
            r.packet_size == packet_size,
    {
        Simulation {
            client: Client::new(generator, resolution),
            server: Server::new(resolution, pspeed, buffer_limit),
            packet_size,
        }
    }

    /// Runs tick `tick`: the client moves on, a packet it generates is offered to the server,
    /// then the server moves on. Returns the packet that completes in this tick, if any.
    pub fn step(&mut self, tick: u32) -> (r: Option<Packet>)
        requires
            old(self).wf(),
            old(self).client.stats().packets_generated < u64::MAX,
            old(self).server.stats().idle_count < u64::MAX,
        ensures
            final(self).wf(),
            final(self).packet_size == old(self).packet_size,
            final(self).client.resolution() == old(self).client.resolution(),
            final(self).client.generator() == old(self).client.generator(),
            ({
                let arrived = old(self).client.ticker() <= 1;
                &&& arrived ==> final(self).client.stats().packets_generated
                    == old(self).client.stats().packets_generated + 1
                &&& arrived ==> final(self).client.generator().admits(
                    final(self).client.resolution(),
                    final(self).client.ticker(),
                )
                &&& !arrived ==> final(self).client.ticker() == old(self).client.ticker() - 1
                &&& !arrived ==> final(self).client.stats().packets_generated
                    == old(self).client.stats().packets_generated
                &&& exists|mid: Server|
                    {
                        &&& if arrived {
                            Server::enqueued(
                                &old(self).server,
                                Packet { time_generated: tick, length: old(self).packet_size },
                                &mid,
                            )
                        } else {
                            mid == old(self).server
                        }
                        &&& #[trigger] Server::processed(&mid, &final(self).server, r)
                    }
            }),
    {
        let ghost before = self.server;
        let arrived = self.client.tick();
        if arrived {
            self.server.enqueue(Packet { time_generated: tick, length: self.packet_size });
        }
        let ghost mid = self.server;
        let r = self.server.process();
        assert(Server::processed(&mid, &self.server, r));
        r
    }

    /// The number of packets waiting in the server's queue.
    pub fn qlen(&self) -> (r: usize)
        ensures
            r == self.server.queue().len(),
    {
        self.server.qlen()
    }
}

} // verus!
