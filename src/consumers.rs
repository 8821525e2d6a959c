use std::collections::VecDeque;
use vstd::prelude::*;

use crate::packets::Packet;

verus! {

/// What a consumer is doing.
#[derive(Clone, Copy, Debug, PartialEq, Eq, Structural)]
pub enum State {
    Idle,
    /// Processing until the tick it holds.
    Processing(u32),
}

/// A consumer stores packets in a queue and takes a fixed number of ticks over each.
pub struct Consumer {
    queue: VecDeque<Packet>,
    buffer_limit: Option<usize>,
    service_time: u32,
    state: State,
}

impl Consumer {
    /// The packets waiting, head first.
    pub closed spec fn queue(&self) -> Seq<Packet> {
        self.queue@
    }

    pub closed spec fn buffer_limit(&self) -> Option<usize> {
        self.buffer_limit
    }

    /// The ticks a packet takes.
    pub closed spec fn service_time(&self) -> u32 {
        self.service_time
    }

    pub closed spec fn state_of(&self) -> State {
        self.state
    }

    /// An idle consumer with an empty queue holding at most `buffer_limit` packets (no bound
    /// where it is `None`), that takes `service_time` ticks over each packet.
    pub fn new(buffer_limit: Option<usize>, service_time: u32) -> (r: Consumer)
        ensures
            r.queue().len() == 0,
            r.buffer_limit() == buffer_limit,
            r.service_time() == service_time,
            r.state_of() == State::Idle,
    {
        Consumer { queue: VecDeque::new(), buffer_limit, service_time, state: State::Idle }
    }

    /// What the consumer is doing.
    pub fn state(&self) -> (r: State)
        ensures
            r == self.state_of(),
    {
        self.state
    }

    /// Appends `packet` to the queue unless the queue is full; true when it was appended.
    pub fn enqueue(&mut self, packet: Packet) -> (r: bool)
        ensures
            final(self).buffer_limit() == old(self).buffer_limit(),
            final(self).service_time() == old(self).service_time(),
            final(self).state_of() == old(self).state_of(),
            r == match old(self).buffer_limit() {
                Some(n) => old(self).queue().len() < n,
                None => true,
            },
            final(self).queue() == if r {
                old(self).queue().push(packet)
            } else {
                old(self).queue()
            },
    {
        match self.buffer_limit {
            Some(size) => {
                if self.queue.len() < size {
                    self.queue.push_back(packet);
                    true
                } else {
                    false
                }
            },
            None => {
                self.queue.push_back(packet);
                true
            },
        }
    }

    /// Moves the consumer to tick `time`. An idle consumer with packets waiting starts on the
    /// head of its queue, to finish `service_time` ticks later. A processing consumer whose
    /// time has come hands out the head of its queue; it then starts on the next packet, or
    /// goes idle where none is left.
    pub fn consume(&mut self, time: u32) -> (r: Option<Packet>)
        requires
            old(self).queue().len() > 0 ==> time + old(self).service_time() <= u32::MAX,
        ensures
            final(self).buffer_limit() == old(self).buffer_limit(),
            final(self).service_time() == old(self).service_time(),
            match old(self).state_of() {
                State::Idle => {
                    &&& r is None
                    &&& final(self).queue() == old(self).queue()
                    &&& final(self).state_of() == if old(self).queue().len() > 0 {
                        State::Processing((time + old(self).service_time()) as u32)
                    } else {
                        State::Idle
                    }
                },
                State::Processing(dt) => {
                    let taken = time >= dt && old(self).queue().len() > 0;
                    &&& r == if taken {
                        Some(old(self).queue()[0])
                    } else {
                        None
                    }
                    &&& final(self).queue() == if taken {
                        old(self).queue().drop_first()
                    } else {
                        old(self).queue()
                    }
                    &&& final(self).state_of() == if final(self).queue().len() == 0 {
                        State::Idle
                    } else {
                        State::Processing((time + old(self).service_time()) as u32)
                    }
                },
            },
    {
        match self.state {
            State::Idle => {
                if self.queue.len() > 0 {
                    self.state = State::Processing(time + self.service_time);
                }
                None
            },
            State::Processing(dt) => {
                let packet = if time >= dt {
                    self.queue.pop_front()
                } else {
                    None
                };
                if self.queue.len() == 0 {
                    self.state = State::Idle;
                } else {
                    self.state = State::Processing(time + self.service_time);
                }
                packet
            },
        }
    }
}

} // verus!
