use std::cell::Cell;

use qlib::generators::{Deterministic, Generator, Rate};
use qlib::simulators::{Client, ClientStatistics, Packet, Server, ServerStatistics};

struct Fixed(u32);

impl Generator for Fixed {
    fn next_event(&self, _: u32) -> u32 {
        self.0
    }
}

fn packet(length: u32) -> Packet {
    Packet { time_generated: 0, length }
}

#[test]
fn client_packet_generation() {
    let mut c = Client::new(Deterministic::new(Rate { amount: 1, per_secs: 2 }).unwrap(), 1);
    assert!(!c.tick());
    assert!(c.tick());
}

#[test]
fn server_packet_delivery() {
    let mut s = Server::new(1, Rate { amount: 1, per_secs: 2 }, None);
    s.enqueue(Packet {
        time_generated: 0,
        length: 1,
    });
    s.enqueue(Packet {
        time_generated: 0,
        length: 1,
    });
    s.process();
    s.process();
    assert_eq!(s.statistics.packets_processed, 1);
    s.process();
    s.process();
    assert_eq!(s.statistics.packets_processed, 2);
}

#[test]
fn server_packet_dropped() {
    let mut s = Server::new(1, Rate { amount: 1, per_secs: 1 }, Some(1));
    s.enqueue(Packet {
        time_generated: 0,
        length: 1,
    });
    s.enqueue(Packet {
        time_generated: 0,
        length: 1,
    });

    s.process();
    assert_eq!(s.statistics.packets_processed, 1);
    assert_eq!(s.statistics.packets_dropped, 1);
}

#[test]
fn server_idle_count() {
    let mut s = Server::new(1, Rate { amount: 1, per_secs: 1 }, Some(1));

    s.process();
    assert_eq!(s.statistics.idle_count, 1);

    s.process();
    assert_eq!(s.statistics.idle_count, 2);

    s.enqueue(Packet {
        time_generated: 0,
        length: 1,
    });
    s.process();
    assert_eq!(s.statistics.idle_count, 2);
    assert_eq!(s.statistics.packets_processed, 1);
}

#[test]
fn statistics_start_at_zero() {
    assert_eq!(ClientStatistics::new().packets_generated, 0);
    let s = ServerStatistics::new();
    assert_eq!((s.packets_processed, s.packets_dropped, s.idle_count), (0, 0, 0));
}

#[test]
fn client_with_fixed_stub_fires_every_fifth_call() {
    // The first sample seeds the ticker at construction: five ticks to the first packet.
    let mut c = Client::new(Fixed(5), 1);
    for call in 0..31u64 {
        let before = c.statistics.packets_generated;
        let fired = c.tick();
        assert_eq!(fired, call % 5 == 4, "call {}", call);
        assert_eq!(c.statistics.packets_generated, before + u64::from(fired));
    }
    assert_eq!(c.statistics.packets_generated, 6);
}

/// Zero at the first sample, five after it.
struct ZeroThenFive(Cell<bool>);

impl Generator for ZeroThenFive {
    fn next_event(&self, _: u32) -> u32 {
        if self.0.replace(true) {
            5
        } else {
            0
        }
    }
}

#[test]
fn client_seeded_with_zero_fires_at_once_then_every_fifth_call() {
    let mut c = Client::new(ZeroThenFive(Cell::new(false)), 1);
    for call in 0..31u64 {
        let before = c.statistics.packets_generated;
        let fired = c.tick();
        assert_eq!(fired, call % 5 == 0, "call {}", call);
        assert_eq!(c.statistics.packets_generated, before + u64::from(fired));
    }
    assert_eq!(c.statistics.packets_generated, 7);
}

#[test]
fn client_with_zero_interval_fires_every_call() {
    let mut c = Client::new(Fixed(0), 1_000_000);
    for _ in 0..4 {
        assert!(c.tick());
    }
    assert_eq!(c.statistics.packets_generated, 4);
}

#[test]
fn server_drops_beyond_limit() {
    let mut s = Server::new(1, Rate { amount: 1, per_secs: 1 }, Some(3));
    for _ in 0..8 {
        s.enqueue(packet(1));
    }
    assert_eq!(s.statistics.packets_dropped, 5);
    assert_eq!(s.qlen(), 3);
}

#[test]
fn server_without_limit_never_drops() {
    let mut s = Server::new(1, Rate { amount: 1, per_secs: 1 }, None);
    for _ in 0..100 {
        s.enqueue(packet(1));
    }
    assert_eq!(s.statistics.packets_dropped, 0);
    assert_eq!(s.qlen(), 100);
}

#[test]
fn server_completion_step_by_step() {
    let mut s = Server::new(1, Rate { amount: 1, per_secs: 2 }, None);
    s.enqueue(packet(1));
    s.enqueue(packet(1));
    assert!(s.process().is_none());
    assert_eq!(s.statistics.packets_processed, 0);
    assert_eq!(s.qlen(), 1);
    assert!(s.process().is_some());
    assert_eq!(s.statistics.packets_processed, 1);
    assert!(s.process().is_none());
    assert_eq!(s.statistics.packets_processed, 1);
    assert_eq!(s.qlen(), 0);
    assert!(s.process().is_some());
    assert_eq!(s.statistics.packets_processed, 2);
    assert_eq!(s.statistics.idle_count, 0);
}

#[test]
fn server_speed_over_resolution_in_bits_per_tick() {
    // 3 bits per second at 2 ticks per second: 1.5 bits per tick.
    let mut s = Server::new(2, Rate { amount: 3, per_secs: 1 }, None);
    s.enqueue(Packet { time_generated: 4, length: 3 });
    assert!(s.process().is_none());
    assert_eq!(s.process(), Some(Packet { time_generated: 4, length: 3 }));
}

#[test]
fn server_never_completes_a_packet_that_is_overshot() {
    // 2 bits per tick never lands on a length of 3.
    let mut s = Server::new(1, Rate { amount: 2, per_secs: 1 }, None);
    s.enqueue(packet(3));
    for _ in 0..10 {
        assert!(s.process().is_none());
    }
    assert_eq!(s.statistics.packets_processed, 0);
    assert_eq!(s.statistics.idle_count, 0);
}

#[test]
fn server_completes_short_packet_in_the_tick_it_starts() {
    let mut s = Server::new(1, Rate { amount: 1, per_secs: 1 }, None);
    s.enqueue(Packet { time_generated: 9, length: 1 });
    assert_eq!(s.process(), Some(Packet { time_generated: 9, length: 1 }));
    assert_eq!(s.process(), None);
    assert_eq!(s.statistics.idle_count, 1);
}

#[test]
fn server_idle_until_packet_arrives() {
    let mut s = Server::new(1, Rate { amount: 1, per_secs: 2 }, None);
    for expected in 1..=3u64 {
        assert!(s.process().is_none());
        assert_eq!(s.statistics.idle_count, expected);
    }
    s.enqueue(packet(1));
    assert!(s.process().is_none());
    assert_eq!(s.statistics.idle_count, 3);
    assert_eq!(s.qlen(), 0);
}
