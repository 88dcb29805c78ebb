use p5::bridge::{Bridge, Received};
use std::cell::Cell;
use std::rc::Rc;

#[test]
fn new_bridge_is_open_and_empty() {
    let mut b: Bridge<u32> = Bridge::new();
    assert!(!b.is_closed());
    assert_eq!(b.len(), 0);
    assert!(matches!(b.try_recv(), Received::Empty));
}

#[test]
fn commands_come_out_in_the_order_sent() {
    let mut b: Bridge<&str> = Bridge::new();
    assert!(b.send("c1").is_ok());
    assert!(b.send("c2").is_ok());
    assert!(b.send("c3").is_ok());
    assert_eq!(b.len(), 3);
    assert!(matches!(b.try_recv(), Received::Command("c1")));
    assert!(matches!(b.try_recv(), Received::Command("c2")));
    assert!(matches!(b.try_recv(), Received::Command("c3")));
    assert!(matches!(b.try_recv(), Received::Empty));
}

#[test]
fn interleaved_senders_each_keep_their_order() {
    // Two producers, tagged 1 and 2, take turns on the same bridge.
    let mut b: Bridge<(u32, u32)> = Bridge::new();
    let order = [(1, 0), (2, 0), (2, 1), (1, 1), (2, 2), (1, 2)];
    for c in order {
        assert!(b.send(c).is_ok());
    }
    let out = b.drain();
    let first: Vec<u32> = out.iter().filter(|c| c.0 == 1).map(|c| c.1).collect();
    let second: Vec<u32> = out.iter().filter(|c| c.0 == 2).map(|c| c.1).collect();
    assert_eq!(first, vec![0, 1, 2]);
    assert_eq!(second, vec![0, 1, 2]);
    assert_eq!(out, order.to_vec());
}

#[test]
fn drain_takes_everything_waiting() {
    let mut b: Bridge<u8> = Bridge::new();
    for i in 0..5u8 {
        assert!(b.send(i).is_ok());
    }
    assert_eq!(b.drain(), vec![0, 1, 2, 3, 4]);
    assert_eq!(b.len(), 0);
    assert!(b.drain().is_empty());
    assert!(!b.is_closed());
}

#[test]
fn send_after_close_is_refused() {
    let mut b: Bridge<u8> = Bridge::new();
    b.close();
    assert!(b.is_closed());
    assert_eq!(b.send(7), Err(7));
    assert_eq!(b.len(), 0);
}

#[test]
fn shutdown_delivers_queued_commands_then_reports_closed() {
    let mut b: Bridge<u8> = Bridge::new();
    assert!(b.send(1).is_ok());
    assert!(b.send(2).is_ok());
    b.close();
    assert!(matches!(b.try_recv(), Received::Command(1)));
    assert_eq!(b.drain(), vec![2]);
    assert!(matches!(b.try_recv(), Received::Closed));
    assert!(matches!(b.try_recv(), Received::Closed));
    assert!(b.drain().is_empty());
}

#[test]
fn commands_never_run_concurrently() {
    let busy = Rc::new(Cell::new(false));
    let log = Rc::new(Cell::new(0u32));
    let mut b: Bridge<Box<dyn FnOnce()>> = Bridge::new();
    for k in 1..=4u32 {
        let busy = busy.clone();
        let log = log.clone();
        let cmd: Box<dyn FnOnce()> = Box::new(move || {
            assert!(!busy.get(), "a command started while another was running");
            busy.set(true);
            log.set(log.get() * 10 + k);
            busy.set(false);
        });
        assert!(b.send(cmd).is_ok());
    }
    b.close();
    loop {
        match b.try_recv() {
            Received::Command(cmd) => cmd(),
            Received::Empty => panic!("a closed bridge never reports Empty"),
            Received::Closed => break,
        }
    }
    assert_eq!(log.get(), 1234);
    assert!(!busy.get());
}
