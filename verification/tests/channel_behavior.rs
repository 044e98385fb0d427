use ipc_channel::channel::Channel;
use ipc_channel::events::IoEvent;
use ipc_channel::outcome::PopOutcome;
use ipc_channel::outcome::PopSliceOutcome;
use ipc_channel::outcome::PushOutcome;
use ipc_channel::outcome::PushSliceOutcome;

#[test]
fn capacity_is_kept() {
    let c = Channel::new(7);
    assert_eq!(c.capacity(), 7);
}

#[test]
fn full_nonblocking_push_fails_then_pop_makes_room() {
    let mut c = Channel::new(2);
    c.set_producer_nonblocking(true);
    assert_eq!(c.push(10), PushOutcome::Pushed);
    assert_eq!(c.push(11), PushOutcome::Pushed);
    assert_eq!(c.push(12), PushOutcome::Eagain);
    assert_eq!(c.pop(), PopOutcome::Popped(10));
    assert_eq!(c.push(12), PushOutcome::Pushed);
}

#[test]
fn full_blocking_push_parks() {
    let mut c = Channel::new(1);
    assert_eq!(c.push(1), PushOutcome::Pushed);
    assert_eq!(c.push(2), PushOutcome::Park);
}

#[test]
fn toggling_nonblocking_turns_park_into_eagain() {
    let mut c = Channel::new(1);
    assert_eq!(c.push(1), PushOutcome::Pushed);
    assert_eq!(c.push(2), PushOutcome::Park);
    c.set_producer_nonblocking(true);
    assert_eq!(c.push(2), PushOutcome::Eagain);
    c.set_producer_nonblocking(false);
    assert_eq!(c.push(2), PushOutcome::Park);
}

#[test]
fn fifo_order() {
    let mut c = Channel::new(8);
    for b in [3u8, 1, 4, 1, 5] {
        assert_eq!(c.push(b), PushOutcome::Pushed);
    }
    for b in [3u8, 1, 4, 1, 5] {
        assert_eq!(c.pop(), PopOutcome::Popped(b));
    }
    assert_eq!(c.pop(), PopOutcome::Park);
}

#[test]
fn push_then_pop_delivers_the_byte() {
    let mut c = Channel::new(4);
    assert_eq!(c.push(42), PushOutcome::Pushed);
    assert_eq!(c.pop(), PopOutcome::Popped(42));
}

#[test]
fn empty_nonblocking_pop_fails() {
    let mut c = Channel::new(4);
    c.set_consumer_nonblocking(true);
    assert_eq!(c.pop(), PopOutcome::Eagain);
}

#[test]
fn empty_blocking_pop_parks() {
    let mut c = Channel::new(4);
    assert_eq!(c.pop(), PopOutcome::Park);
}

#[test]
fn producer_shutdown_is_idempotent_and_rebroadcasts() {
    let mut c = Channel::new(4);
    c.shutdown_producer();
    assert!(c.is_producer_shutdown());
    assert!(!c.is_consumer_shutdown());
    c.shutdown_producer();
    assert!(c.is_producer_shutdown());
    assert!(!c.is_consumer_shutdown());
    let events = c.take_producer_events();
    assert_eq!(events, vec![IoEvent::Hup, IoEvent::Hup]);
}

#[test]
fn consumer_shutdown_is_idempotent_and_rebroadcasts() {
    let mut c = Channel::new(4);
    c.shutdown_consumer();
    c.shutdown_consumer();
    assert!(!c.is_producer_shutdown());
    assert!(c.is_consumer_shutdown());
    let events = c.take_consumer_events();
    assert_eq!(events, vec![IoEvent::RdHup, IoEvent::RdHup]);
}

#[test]
fn buffered_bytes_survive_producer_shutdown() {
    let mut c = Channel::new(8);
    for b in [9u8, 8, 7] {
        assert_eq!(c.push(b), PushOutcome::Pushed);
    }
    c.shutdown_producer();
    assert_eq!(c.pop(), PopOutcome::Popped(9));
    assert_eq!(c.pop(), PopOutcome::Popped(8));
    assert_eq!(c.pop(), PopOutcome::Popped(7));
    assert_eq!(c.pop(), PopOutcome::Eos);
}

#[test]
fn pop_after_producer_shutdown_on_empty_is_immediate_eos() {
    let mut c = Channel::new(4);
    c.shutdown_producer();
    assert_eq!(c.pop(), PopOutcome::Eos);
}

#[test]
fn push_after_consumer_shutdown_is_epipe_despite_room() {
    let mut c = Channel::new(16);
    c.shutdown_consumer();
    assert_eq!(c.push(1), PushOutcome::Epipe);
    c.set_producer_nonblocking(true);
    assert_eq!(c.push(1), PushOutcome::Epipe);
}

#[test]
fn push_after_producer_shutdown_is_epipe() {
    let mut c = Channel::new(4);
    c.shutdown_producer();
    assert_eq!(c.push(1), PushOutcome::Epipe);
}

#[test]
fn pop_after_consumer_shutdown_is_epipe_despite_data() {
    let mut c = Channel::new(4);
    assert_eq!(c.push(5), PushOutcome::Pushed);
    c.shutdown_consumer();
    assert_eq!(c.pop(), PopOutcome::Epipe);
}

#[test]
fn push_broadcasts_in_and_pop_broadcasts_out() {
    let mut c = Channel::new(4);
    assert_eq!(c.push(1), PushOutcome::Pushed);
    assert_eq!(c.push(2), PushOutcome::Pushed);
    assert_eq!(c.pop(), PopOutcome::Popped(1));
    assert_eq!(c.producer_notifier().events().as_slice(), &[IoEvent::In, IoEvent::In]);
    assert_eq!(c.consumer_notifier().events().as_slice(), &[IoEvent::Out]);
    assert_eq!(c.take_producer_events(), vec![IoEvent::In, IoEvent::In]);
    assert!(c.producer_notifier().events().is_empty());
}

#[test]
fn failed_attempts_broadcast_nothing() {
    let mut c = Channel::new(1);
    assert_eq!(c.push(1), PushOutcome::Pushed);
    assert_eq!(c.push(2), PushOutcome::Park);
    c.set_consumer_nonblocking(true);
    assert_eq!(c.pop(), PopOutcome::Popped(1));
    assert_eq!(c.pop(), PopOutcome::Eagain);
    assert_eq!(c.take_producer_events(), vec![IoEvent::In]);
    assert_eq!(c.take_consumer_events(), vec![IoEvent::Out]);
}

#[test]
fn poll_reports_readiness_and_hangups() {
    let mut c = Channel::new(2);
    let p = c.poll_producer();
    assert!(p.writable && !p.readable && !p.hup && !p.rdhup);
    let q = c.poll_consumer();
    assert!(!q.readable && !q.writable && !q.hup && !q.rdhup);

    assert_eq!(c.push(1), PushOutcome::Pushed);
    assert_eq!(c.push(2), PushOutcome::Pushed);
    assert!(!c.poll_producer().writable);
    assert!(c.poll_consumer().readable);

    c.shutdown_producer();
    let p = c.poll_producer();
    assert!(p.hup && !p.rdhup);
    let q = c.poll_consumer();
    assert!(q.hup && !q.rdhup);

    c.shutdown_consumer();
    let p = c.poll_producer();
    assert!(p.hup && p.rdhup);
    let q = c.poll_consumer();
    assert!(q.hup && q.rdhup);
}

#[test]
fn push_slice_writes_the_leading_bytes_that_fit() {
    let mut c = Channel::new(4);
    assert_eq!(c.push_slice(&[1, 2, 3, 4, 5, 6]), PushSliceOutcome::Pushed(4));
    assert_eq!(c.pop(), PopOutcome::Popped(1));
    assert_eq!(c.push_slice(&[7]), PushSliceOutcome::Pushed(1));
    assert_eq!(c.pop(), PopOutcome::Popped(2));
    assert_eq!(c.pop(), PopOutcome::Popped(3));
    assert_eq!(c.pop(), PopOutcome::Popped(4));
    assert_eq!(c.pop(), PopOutcome::Popped(7));
}

#[test]
fn push_slice_with_no_room_takes_the_blocking_branch() {
    let mut c = Channel::new(1);
    assert_eq!(c.push(1), PushOutcome::Pushed);
    assert_eq!(c.push_slice(&[2, 3]), PushSliceOutcome::Park);
    c.set_producer_nonblocking(true);
    assert_eq!(c.push_slice(&[2, 3]), PushSliceOutcome::Eagain);
}

#[test]
fn empty_push_slice_takes_the_blocking_branch_too() {
    let mut c = Channel::new(4);
    assert_eq!(c.push_slice(&[]), PushSliceOutcome::Park);
    c.set_producer_nonblocking(true);
    assert_eq!(c.push_slice(&[]), PushSliceOutcome::Eagain);
}

#[test]
fn push_slice_after_shutdown_is_epipe() {
    let mut c = Channel::new(4);
    c.shutdown_consumer();
    assert_eq!(c.push_slice(&[1, 2]), PushSliceOutcome::Epipe);
}

#[test]
fn pop_slice_moves_a_prefix_into_the_callers_buffer() {
    let mut c = Channel::new(8);
    assert_eq!(c.push_slice(&[10, 20, 30]), PushSliceOutcome::Pushed(3));
    let mut buf = vec![0u8; 2];
    assert_eq!(c.pop_slice(&mut buf), PopSliceOutcome::Popped(2));
    assert_eq!(buf, vec![10, 20]);
    let mut buf = vec![99u8; 5];
    assert_eq!(c.pop_slice(&mut buf), PopSliceOutcome::Popped(1));
    assert_eq!(buf, vec![30, 99, 99, 99, 99]);
}

#[test]
fn pop_slice_on_drained_shutdown_channel_is_eos() {
    let mut c = Channel::new(4);
    assert_eq!(c.push(1), PushOutcome::Pushed);
    c.shutdown_producer();
    let mut buf = vec![0u8; 4];
    assert_eq!(c.pop_slice(&mut buf), PopSliceOutcome::Popped(1));
    assert_eq!(buf, vec![1, 0, 0, 0]);
    assert_eq!(c.pop_slice(&mut buf), PopSliceOutcome::Eos);
}

#[test]
fn pop_slice_on_empty_open_channel_blocks_or_fails() {
    let mut c = Channel::new(4);
    let mut buf = vec![0u8; 2];
    assert_eq!(c.pop_slice(&mut buf), PopSliceOutcome::Park);
    c.set_consumer_nonblocking(true);
    assert_eq!(c.pop_slice(&mut buf), PopSliceOutcome::Eagain);
}

#[test]
fn pop_slice_after_consumer_shutdown_is_epipe_and_touches_nothing() {
    let mut c = Channel::new(4);
    assert_eq!(c.push(1), PushOutcome::Pushed);
    c.shutdown_consumer();
    let mut buf = vec![7u8; 3];
    assert_eq!(c.pop_slice(&mut buf), PopSliceOutcome::Epipe);
    assert_eq!(buf, vec![7, 7, 7]);
}

#[test]
fn zero_capacity_channel_never_accepts_a_byte() {
    let mut c = Channel::new(0);
    assert_eq!(c.capacity(), 0);
    c.set_producer_nonblocking(true);
    assert_eq!(c.push(1), PushOutcome::Eagain);
    assert!(!c.poll_producer().writable);
}
