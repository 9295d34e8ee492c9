use blockwork::wire::{offer_stop_loop, PushStep, CONTROL_PUSH_ATTEMPTS};
use blockwork::wire::{RingBuffer, SharedRegion, WireTimestamp, RING_CAPACITY, SLOT_PAYLOAD};

#[test]
fn ring_buffer_push_pop() {
    let mut ring = RingBuffer::new();
    assert!(ring.try_push(b"hello"));
    let mut buf = [0u8; SLOT_PAYLOAD];
    let len = ring.try_pop(&mut buf).unwrap();
    assert_eq!(&buf[..len], b"hello");
    assert!(ring.try_pop(&mut buf).is_none());
}

#[test]
fn ring_buffer_is_first_in_first_out() {
    let mut ring = RingBuffer::new();
    assert!(ring.try_push(b"one"));
    assert!(ring.try_push(b"two"));
    assert!(ring.try_push(b""));
    let mut buf = [7u8; SLOT_PAYLOAD];
    let len = ring.try_pop(&mut buf).unwrap();
    assert_eq!(&buf[..len], b"one");
    let len = ring.try_pop(&mut buf).unwrap();
    assert_eq!(&buf[..len], b"two");
    assert_eq!(ring.try_pop(&mut buf), Some(0));
    assert_eq!(ring.try_pop(&mut buf), None);
}

#[test]
fn ring_buffer_refuses_a_push_when_full() {
    let mut ring = RingBuffer::new();
    for i in 0..RING_CAPACITY {
        assert!(ring.try_push(&[(i % 251) as u8]));
    }
    assert!(!ring.try_push(b"overflow"));
    let mut buf = [0u8; SLOT_PAYLOAD];
    assert_eq!(ring.try_pop(&mut buf), Some(1));
    assert_eq!(buf[0], 0);
    assert!(ring.try_push(b"fits again"));
}

#[test]
fn ring_buffer_keeps_a_full_slot_intact() {
    let mut ring = RingBuffer::new();
    let msg: Vec<u8> = (0..SLOT_PAYLOAD).map(|i| i as u8).collect();
    assert!(ring.try_push(&msg));
    let mut buf = [0u8; SLOT_PAYLOAD];
    let len = ring.try_pop(&mut buf).unwrap();
    assert_eq!(&buf[..len], &msg[..]);
}

#[test]
fn shared_region_starts_empty() {
    let mut region = SharedRegion::new();
    assert_eq!((region.windows_heartbeat, region.linux_heartbeat), (0, 0));
    let mut buf = [0u8; SLOT_PAYLOAD];
    assert!(region.capture.try_pop(&mut buf).is_none());
    assert!(region.control.try_pop(&mut buf).is_none());
}

#[test]
fn timestamps_round_trip_through_their_parts() {
    let t = std::time::UNIX_EPOCH + std::time::Duration::new(1_700_000_000, 123_456_789);
    let w = WireTimestamp::from_system_time(t);
    assert_eq!((w.secs, w.nanos), (1_700_000_000, 123_456_789));
    assert_eq!(w.to_system_time(), Some(t));
}

#[test]
fn times_before_the_epoch_become_zero() {
    let t = std::time::UNIX_EPOCH - std::time::Duration::from_secs(5);
    let w = WireTimestamp::from_system_time(t);
    assert_eq!((w.secs, w.nanos), (0, 0));
}

#[test]
fn a_duration_since_the_epoch_is_split_into_its_parts() {
    assert_eq!(WireTimestamp::from_since_epoch(Some((12, 345))), WireTimestamp { secs: 12, nanos: 345 });
    assert_eq!(WireTimestamp::from_since_epoch(None), WireTimestamp { secs: 0, nanos: 0 });
}

#[test]
fn stop_loop_is_sent_as_its_variant_index() {
    let mut region = blockwork::wire::SharedRegion::new();
    assert!(blockwork::wire::send_stop_loop(&mut region).is_ok());
    let mut buf = [0u8; SLOT_PAYLOAD];
    let len = region.control.try_pop(&mut buf).unwrap();
    assert_eq!(&buf[..len], &[1u8]);
    assert!(region.capture.try_pop(&mut buf).is_none());
}

#[test]
fn control_pushes_fail_once_the_ring_is_full() {
    let mut region = blockwork::wire::SharedRegion::new();
    for _ in 0..RING_CAPACITY {
        assert!(blockwork::wire::push_control(&mut region, b"x").is_ok());
    }
    assert_eq!(blockwork::wire::push_control(&mut region, b"y"), Err("control ring full".to_string()));
}

#[test]
fn a_full_control_ring_is_retried_then_given_up_on() {
    assert_eq!(blockwork::wire::control_push_step(1, true), PushStep::Sent);
    assert_eq!(blockwork::wire::control_push_step(1, false), PushStep::RetryAfterPause);
    assert_eq!(blockwork::wire::control_push_step(999, false), PushStep::RetryAfterPause);
    assert_eq!(
        blockwork::wire::control_push_step(CONTROL_PUSH_ATTEMPTS, false),
        PushStep::GaveUp("control ring full".to_string())
    );
}

#[test]
fn messages_come_out_in_the_order_they_went_in() {
    let mut ring = blockwork::wire::RingBuffer::new();
    for m in [&b"a"[..], &b"bb"[..], &b"ccc"[..]] {
        assert!(ring.try_push(m));
    }
    let mut buf = [0u8; SLOT_PAYLOAD];
    for m in [&b"a"[..], &b"bb"[..], &b"ccc"[..]] {
        let len = ring.try_pop(&mut buf).unwrap();
        assert_eq!(&buf[..len], m);
    }
    assert!(ring.try_pop(&mut buf).is_none());
}

#[test]
fn a_stop_offer_on_a_full_ring_waits_then_gives_up() {
    let mut region = SharedRegion::new();
    for _ in 0..RING_CAPACITY {
        assert!(region.control.try_push(b"x"));
    }
    assert_eq!(offer_stop_loop(&mut region, 1), PushStep::RetryAfterPause);
    assert_eq!(offer_stop_loop(&mut region, CONTROL_PUSH_ATTEMPTS), PushStep::GaveUp("control ring full".to_string()));
    let mut buf = [0u8; SLOT_PAYLOAD];
    assert!(region.control.try_pop(&mut buf).is_some());
    assert_eq!(offer_stop_loop(&mut region, 2), PushStep::Sent);
}
