use std::collections::VecDeque;
use vstd::prelude::*;

use crate::generators::{Generator, Rate};

verus! {

/// A packet: the tick at which it was generated, and its length in bits.
#[derive(Clone, Copy, Debug, PartialEq, Eq, Structural)]
pub struct Packet {
    pub time_generated: u32,
    pub length: u32,
}

/// What a client counts over a simulation.
pub struct ClientStatistics {
    pub packets_generated: u64,
}

impl ClientStatistics {
    pub fn new() -> (r: ClientStatistics)
        ensures
            r.packets_generated == 0,
    {
        ClientStatistics { packets_generated: 0 }
    }
}

/// A client generates packets as its generator dictates. It counts down the ticks to its next
/// packet, one tick per call of `tick`, and counts the packets it generates.
pub struct Client<G: Generator> {
    resolution: u32,
    ticker: u32,
    generator: G,
    pub statistics: ClientStatistics,
}

impl<G: Generator> Client<G> {
    pub closed spec fn stats(&self) -> ClientStatistics {
        self.statistics
    }

    /// The ticks left until the next packet.
    pub closed spec fn ticker(&self) -> u32 {
        self.ticker
    }

    /// The ticks per second that the generator is asked for.
    pub closed spec fn resolution(&self) -> u32 {
        self.resolution
    }

    pub closed spec fn generator(&self) -> G {
        self.generator
    }

    /// A client whose ticker is seeded by one sample of `generator`, so that its first packet
    /// may come at the first tick.
    pub fn new(generator: G, resolution: u32) -> (r: Client<G>)
        ensures
            r.resolution() == resolution,
            r.stats().packets_generated == 0,
            r.generator() == generator,
            generator.admits(resolution, r.ticker()),
    {
        let ticker = generator.next_event(resolution);
        Client { ticker, generator, statistics: ClientStatistics::new(), resolution }
    }

    /// Moves the client on by one tick; true when a packet is generated in it.
    ///
    /// A zero ticker is never decremented: it means that a packet is due now. A packet is also
    /// due when the decrement brings the ticker to zero. After each packet the ticker is seeded
    /// again from the generator. At most one packet comes per tick.
    pub fn tick(&mut self) -> (r: bool)
        requires
            old(self).stats().packets_generated < u64::MAX,
        ensures
            r == (old(self).ticker() <= 1),
            r ==> final(self).stats().packets_generated == old(self).stats().packets_generated + 1,
            !r ==> final(self).stats().packets_generated == old(self).stats().packets_generated,
            !r ==> final(self).ticker() == old(self).ticker() - 1,
            final(self).resolution() == old(self).resolution(),
            final(self).generator() == old(self).generator(),
            r ==> final(self).generator().admits(final(self).resolution(), final(self).ticker()),
    {
        if self.ticker == 0 {
            self.statistics.packets_generated = self.statistics.packets_generated + 1;
            self.ticker = self.generator.next_event(self.resolution);
            return true;
        }
        self.ticker = self.ticker - 1;
        if self.ticker == 0 {
            self.statistics.packets_generated = self.statistics.packets_generated + 1;
            self.ticker = self.generator.next_event(self.resolution);
            true
        } else {
            false
        }
    }
}

/// What a server counts over a simulation.
pub struct ServerStatistics {
    pub packets_processed: u64,
    pub packets_dropped: u64,
    pub idle_count: u64,
}

impl ServerStatistics {
    pub fn new() -> (r: ServerStatistics)
        ensures
            r.packets_processed == 0,
            r.packets_dropped == 0,
            r.idle_count == 0,
    {
        ServerStatistics { packets_processed: 0, packets_dropped: 0, idle_count: 0 }
    }
}

/// `a + b`, or `u128::MAX` where that does not fit.
pub open spec fn saturating_sum(a: nat, b: nat) -> nat {
    if a + b <= u128::MAX {
        a + b
    } else {
        u128::MAX as nat
    }
}

/// A server holds packets in a FIFO queue and processes them one at a time at a fixed speed.
///
/// The bits of the packet in service are counted in units of `1 / (per_secs * resolution)`
/// bits, where `per_secs` is that of the processing speed: each tick then adds exactly the
/// speed's `amount` of them, and the count has no rounding error.
pub struct Server {
    queue: VecDeque<Packet>,
    buffer_limit: Option<usize>,
    resolution: u32,
    pub statistics: ServerStatistics,
    pspeed: Rate,
    curr_packet: Option<Packet>,
    scaled_bits: u128,
}

impl Server {
    pub closed spec fn stats(&self) -> ServerStatistics {
        self.statistics
    }

    /// The packets waiting, head first, not counting the one in service.
    pub closed spec fn queue(&self) -> Seq<Packet> {
        self.queue@
    }

    pub closed spec fn buffer_limit(&self) -> Option<usize> {
        self.buffer_limit
    }

    /// Ticks per second.
    pub closed spec fn resolution(&self) -> u32 {
        self.resolution
    }

    /// Processing speed in bits per second.
    pub closed spec fn pspeed(&self) -> Rate {
        self.pspeed
    }

    /// The packet in service, if any.
    pub closed spec fn current(&self) -> Option<Packet> {
        self.curr_packet
    }

    /// The bits of the packet in service processed so far, in units of `1 / unit()` bits.
    pub closed spec fn scaled_bits(&self) -> nat {
        self.scaled_bits as nat
    }

    /// The number of counted units in one bit.
    pub open spec fn unit(&self) -> nat {
        self.pspeed().per_secs as nat * self.resolution() as nat
    }

    /// The whole bits of the packet in service processed so far.
    pub open spec fn bits_processed(&self) -> nat {
        self.scaled_bits() / self.unit()
    }

    pub open spec fn is_full(&self) -> bool {
        match self.buffer_limit() {
            Some(n) => self.queue().len() >= n,
            None => false,
        }
    }

    pub open spec fn wf(&self) -> bool {
        &&& self.resolution() > 0
        &&& self.pspeed().is_finite()
        &&& self.buffer_limit() matches Some(n) ==> self.queue().len() <= n
        &&& self.current() is None ==> self.scaled_bits() == 0
    }

    /// The packet that the next `process` serves: the one in service, else the head of the queue.
    pub open spec fn next_in_service(&self) -> Option<Packet> {
        if self.current() is Some {
            self.current()
        } else if self.queue().len() > 0 {
            Some(self.queue()[0])
        } else {
            None
        }
    }

    /// The queue once the next packet to serve has left it.
    pub open spec fn queue_after_start(&self) -> Seq<Packet> {
        if self.current() is None && self.queue().len() > 0 {
            self.queue().drop_first()
        } else {
            self.queue()
        }
    }

    /// The count of units once one more tick of service has been added.
    pub open spec fn advanced_bits(&self) -> nat {
        saturating_sum(self.scaled_bits(), self.pspeed().amount as nat)
    }

    /// The same server but for the queue, the packet in service, the count of processed bits
    /// and the statistics.
    pub open spec fn same_config(&self, other: &Server) -> bool {
        &&& other.buffer_limit() == self.buffer_limit()
        &&& other.resolution() == self.resolution()
        &&& other.pspeed() == self.pspeed()
    }

    /// What `enqueue` does: a full queue drops the packet and counts the drop, else the
    /// packet joins the tail of the queue.
    pub open spec fn enqueued(pre: &Server, packet: Packet, post: &Server) -> bool {
        &&& pre.same_config(post)
        &&& post.current() == pre.current()
        &&& post.scaled_bits() == pre.scaled_bits()
        &&& post.stats().packets_processed == pre.stats().packets_processed
        &&& post.stats().idle_count == pre.stats().idle_count
        &&& if pre.is_full() {
            &&& post.queue() == pre.queue()
            &&& post.stats().packets_dropped == pre.stats().packets_dropped + 1
        } else {
            &&& post.queue() == pre.queue().push(packet)
            &&& post.stats().packets_dropped == pre.stats().packets_dropped
        }
    }

    /// What `process` does in one tick: with nothing to serve it counts an idle tick. Else it
    /// adds one tick of service to the packet in service (taking the head of the queue into
    /// service first, where none is), and completes the packet when its whole processed bits
    /// equal its length exactly.
    pub open spec fn processed(pre: &Server, post: &Server, r: Option<Packet>) -> bool {
        &&& pre.same_config(post)
        &&& post.stats().packets_dropped == pre.stats().packets_dropped
        &&& match pre.next_in_service() {
            None => {
                &&& r is None
                &&& post.queue() == pre.queue()
                &&& post.current() is None
                &&& post.scaled_bits() == 0
                &&& post.stats().packets_processed == pre.stats().packets_processed
                &&& post.stats().idle_count == pre.stats().idle_count + 1
            },
            Some(p) => {
                &&& post.queue() == pre.queue_after_start()
                &&& post.stats().idle_count == pre.stats().idle_count
                &&& if pre.advanced_bits() / pre.unit() == p.length as nat {
                    &&& r == Some(p)
                    &&& post.current() is None
                    &&& post.scaled_bits() == 0
                    &&& post.stats().packets_processed == pre.stats().packets_processed + 1
                } else {
                    &&& r is None
                    &&& post.current() == Some(p)
                    &&& post.scaled_bits() == pre.advanced_bits()
                    &&& post.stats().packets_processed == pre.stats().packets_processed
                }
            },
        }
    }

    /// A server with an empty queue and nothing in service, at `resolution` ticks per second,
    /// processing `pspeed` bits per second, and holding at most `buffer_limit` packets in its
    /// queue (no bound where it is `None`).
    pub fn new(resolution: u32, pspeed: Rate, buffer_limit: Option<usize>) -> (r: Server)
        requires
            resolution > 0,
            pspeed.is_finite(),
        ensures
            r.wf(),
            r.resolution() == resolution,
            r.pspeed() == pspeed,
            r.buffer_limit() == buffer_limit,
            r.queue().len() == 0,
            r.current() is None,
            r.stats().packets_processed == 0,
            r.stats().packets_dropped == 0,
            r.stats().idle_count == 0,
    {
        Server {
            queue: VecDeque::new(),
            buffer_limit,
            resolution,
            statistics: ServerStatistics::new(),
            pspeed,
            curr_packet: None,
            scaled_bits: 0,
        }
    }

    /// Queues `packet` for processing; where the queue is full the packet is dropped and the
    /// drop counted.
    pub fn enqueue(&mut self, packet: Packet)
        requires
            old(self).wf(),
            old(self).stats().packets_dropped < u64::MAX,
        ensures
            final(self).wf(),
            Server::enqueued(old(self), packet, final(self)),
    {
        match self.buffer_limit {
            Some(limit) => {
                if self.queue.len() < limit {
                    self.queue.push_back(packet);
                } else {
                    self.statistics.packets_dropped = self.statistics.packets_dropped + 1;
                }
            },
            None => {
                self.queue.push_back(packet);
            },
        }
    }

    /// Adds one tick of service to the packet in service; true when it then completes.
    fn serve(&mut self, p: Packet) -> (done: bool)
        requires
            old(self).wf(),
            old(self).current() == Some(p),
            old(self).stats().packets_processed < u64::MAX,
        ensures
            final(self).wf(),
            old(self).same_config(final(self)),
            final(self).queue() == old(self).queue(),
            final(self).stats().packets_dropped == old(self).stats().packets_dropped,
            final(self).stats().idle_count == old(self).stats().idle_count,
            done == (old(self).advanced_bits() / old(self).unit() == p.length as nat),
            done ==> {
                &&& final(self).current() is None
                &&& final(self).scaled_bits() == 0
                &&& final(self).stats().packets_processed
                    == old(self).stats().packets_processed + 1
            },
            !done ==> {
                &&& final(self).current() == Some(p)
                &&& final(self).scaled_bits() == old(self).advanced_bits()
                &&& final(self).stats().packets_processed
                    == old(self).stats().packets_processed
            },
    {
        proof {
            let (a, b) = (self.pspeed.per_secs as int, self.resolution as int);
            assert(0 < a * b <= 0xffff_ffff * 0xffff_ffff) by (nonlinear_arith)
                requires
                    0 < a <= 0xffff_ffff,
                    0 < b <= 0xffff_ffff,
            ;
        }
        let unit: u64 = self.pspeed.per_secs as u64 * self.resolution as u64;
        let step: u128 = self.pspeed.amount as u128;
        if self.scaled_bits <= u128::MAX - step {
            self.scaled_bits = self.scaled_bits + step;
        } else {
            self.scaled_bits = u128::MAX;
        }
        if self.scaled_bits / (unit as u128) == p.length as u128 {
            self.curr_packet = None;
            self.scaled_bits = 0;
            self.statistics.packets_processed = self.statistics.packets_processed + 1;
            true
        } else {
            false
        }
    }

    /// Moves service on by one tick, and returns the packet that completes in it, if any.
    ///
    /// A packet completes when its whole processed bits equal its length exactly; a speed and
    /// resolution that never land on that number leave the packet in service for good.
    pub fn process(&mut self) -> (r: Option<Packet>)
        requires
            old(self).wf(),
            old(self).stats().packets_processed < u64::MAX,
            old(self).stats().idle_count < u64::MAX,
        ensures
            final(self).wf(),
            Server::processed(old(self), final(self), r),
    {
        match self.curr_packet {
            Some(p) => {
                if self.serve(p) {
                    Some(p)
                } else {
                    None
                }
            },
            None => {
                match self.queue.pop_front() {
                    Some(p) => {
                        self.curr_packet = Some(p);
                        if self.serve(p) {
                            Some(p)
                        } else {
                            None
                        }
                    },
                    None => {
                        self.statistics.idle_count = self.statistics.idle_count + 1;
                        None
                    },
                }
            },
        }
    }

    /// The number of packets waiting in the queue, not counting the one in service.
    pub fn qlen(&self) -> (r: usize)
        ensures
            r == self.queue().len(),
    {
        self.queue.len()
    }
}

/// The queue length and the drops after the first `k` of a run of enqueues into a server whose
/// queue was empty and which had dropped nothing, under a limit of `n`.
pub open spec fn filled(k: nat, n: nat) -> (nat, nat) {
    if k <= n {
        (k, 0)
    } else {
        (n, (k - n) as nat)
    }
}

proof fn lemma_fill_prefix(states: Seq<Server>, packets: Seq<Packet>, n: usize, k: nat)
    requires
        states.len() == packets.len() + 1,
        states[0].buffer_limit() == Some(n),
        states[0].queue().len() == 0,
        states[0].stats().packets_dropped == 0,
        forall|i: int|
            0 <= i < packets.len() ==> #[trigger] Server::enqueued(
                &states[i],
                packets[i],
                &states[i + 1],
            ),
        k <= packets.len(),
    ensures
        states[k as int].buffer_limit() == Some(n),
        (states[k as int].queue().len(), states[k as int].stats().packets_dropped as nat)
            == filled(k, n as nat),
    decreases k,
{
    if k > 0 {
        lemma_fill_prefix(states, packets, n, (k - 1) as nat);
        let i = k - 1;
        assert(Server::enqueued(&states[i], packets[i], &states[i + 1]));
    }
}

/// Enqueues alone never lose count: after `k` enqueues with no processing in between, into a
/// server with an empty queue, no drops yet and a limit of `n < k`, exactly `k - n` packets
/// were dropped and `n` are queued.
pub proof fn lemma_drops_beyond_limit(states: Seq<Server>, packets: Seq<Packet>, n: usize)
    requires
        states.len() == packets.len() + 1,
        states[0].buffer_limit() == Some(n),
        states[0].queue().len() == 0,
        states[0].stats().packets_dropped == 0,
        forall|i: int|
            0 <= i < packets.len() ==> #[trigger] Server::enqueued(
                &states[i],
                packets[i],
                &states[i + 1],
            ),
        packets.len() > n,
    ensures
        states.last().stats().packets_dropped == packets.len() - n,
        states.last().queue().len() == n,
{
    lemma_fill_prefix(states, packets, n, packets.len());
}

} // verus!
