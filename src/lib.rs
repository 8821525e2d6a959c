//! A discrete-time simulation of a single-queue packet-processing station: a client generates
//! packets as an event generator dictates, and a server buffers them in a bounded or unbounded
//! FIFO queue and processes them at a fixed speed, one tick at a time.

pub mod consumers;
pub mod generators;
pub mod packets;
pub mod simulation;
pub mod simulators;
