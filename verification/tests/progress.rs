use arti_bridge::bridge::{Bridge, Resource};
use arti_bridge::handle::{Handle, HandleKind, Tor};
use arti_bridge::progress::{
    arti_progress_next, begin_progress_next, open_progress_channel, progress_text, ProgressPoll,
    PROGRESS_CAPACITY,
};
use tokio::sync::mpsc::error::TrySendError;

fn bundle_with_channel(bridge: &mut Bridge<u8, String>) -> Tor {
    let (sender, receiver) = open_progress_channel();
    let progress_sender = bridge.issue(Resource::ProgressSend(sender));
    let progress_receiver = bridge.issue(Resource::ProgressReceive(receiver));
    Tor { client: Handle::null(), proxy: Handle::null(), progress_sender, progress_receiver }
}

fn publish(bridge: &Bridge<u8, String>, tor: &Tor, text: &str) {
    match bridge.peek(tor.progress_sender) {
        Some(Resource::ProgressSend(sender)) => {
            sender.try_send(text.to_string()).expect("the queue has room")
        }
        _ => panic!("the send end is parked"),
    }
}

fn poll(bridge: &mut Bridge<u8, String>, tor: &Tor) -> String {
    match begin_progress_next(bridge, tor) {
        ProgressPoll::Wait(mut receiver) => {
            let received = receiver.blocking_recv();
            arti_progress_next(bridge, tor, receiver, received)
        }
        ProgressPoll::Done(text) => text,
    }
}

#[test]
fn capacity_is_one_hundred() {
    assert_eq!(PROGRESS_CAPACITY, 100);
    let (sender, receiver) = open_progress_channel();
    assert_eq!(sender.max_capacity(), 100);
    assert_eq!(receiver.max_capacity(), 100);
    assert_eq!(sender.capacity(), 100);
}

#[test]
fn full_queue_holds_back_the_producer_and_drops_nothing() {
    let (sender, mut receiver) = open_progress_channel();
    for n in 0..100 {
        sender.try_send(format!("event {}", n)).expect("the queue has room");
    }
    match sender.try_send("one too many".to_string()) {
        Err(TrySendError::Full(text)) => assert_eq!(text, "one too many"),
        _ => panic!("the queue is full"),
    }
    assert_eq!(receiver.blocking_recv(), Some("event 0".to_string()));
    sender.try_send("event 100".to_string()).expect("one slot was freed");
    for n in 1..=100 {
        assert_eq!(receiver.blocking_recv(), Some(format!("event {}", n)));
    }
}

#[test]
fn progress_text_is_the_message() {
    assert_eq!(progress_text(Some("Proxy started".to_string())), "Proxy started");
    assert_eq!(progress_text(Some(String::new())), "");
}

#[test]
fn progress_text_on_closure_is_the_sentinel() {
    assert_eq!(progress_text(None), "No progress");
}

#[test]
fn polls_return_messages_in_send_order() {
    let mut bridge: Bridge<u8, String> = Bridge::new();
    let tor = bundle_with_channel(&mut bridge);
    publish(&bridge, &tor, "first");
    publish(&bridge, &tor, "second");
    publish(&bridge, &tor, "third");
    assert_eq!(poll(&mut bridge, &tor), "first");
    publish(&bridge, &tor, "fourth");
    assert_eq!(poll(&mut bridge, &tor), "second");
    assert_eq!(poll(&mut bridge, &tor), "third");
    assert_eq!(poll(&mut bridge, &tor), "fourth");
}

#[test]
fn polls_report_no_progress_once_closed_and_drained() {
    let mut bridge: Bridge<u8, String> = Bridge::new();
    let tor = bundle_with_channel(&mut bridge);
    publish(&bridge, &tor, "last words");
    assert!(bridge.reclaim(tor.progress_sender, HandleKind::ProgressSend).is_some());
    assert_eq!(poll(&mut bridge, &tor), "last words");
    assert_eq!(poll(&mut bridge, &tor), "No progress");
    assert_eq!(poll(&mut bridge, &tor), "No progress");
    assert!(bridge.is_parked(tor.progress_receiver, HandleKind::ProgressReceive));
}

#[test]
fn receive_end_is_out_of_the_bridge_during_the_wait() {
    let mut bridge: Bridge<u8, String> = Bridge::new();
    let tor = bundle_with_channel(&mut bridge);
    publish(&bridge, &tor, "event");
    let mut receiver = match begin_progress_next(&mut bridge, &tor) {
        ProgressPoll::Wait(receiver) => receiver,
        ProgressPoll::Done(_) => panic!("the receive end is parked"),
    };
    assert!(!bridge.is_parked(tor.progress_receiver, HandleKind::ProgressReceive));
    assert_eq!(bridge.kind_of(tor.progress_receiver), Some(HandleKind::ProgressReceive));
    match begin_progress_next(&mut bridge, &tor) {
        ProgressPoll::Done(text) => assert_eq!(text, "No progress"),
        ProgressPoll::Wait(_) => panic!("the receive end is out on loan"),
    }
    let received = receiver.blocking_recv();
    assert_eq!(arti_progress_next(&mut bridge, &tor, receiver, received), "event");
    assert!(bridge.is_parked(tor.progress_receiver, HandleKind::ProgressReceive));
}

#[test]
fn poll_without_a_receive_end_is_done_at_once() {
    let mut bridge: Bridge<u8, String> = Bridge::new();
    let tor = bundle_with_channel(&mut bridge);
    let wrong = Tor { progress_receiver: tor.progress_sender, ..tor };
    match begin_progress_next(&mut bridge, &wrong) {
        ProgressPoll::Done(text) => assert_eq!(text, "No progress"),
        ProgressPoll::Wait(_) => panic!("a send end is no receive end"),
    }
    let null = Tor { progress_receiver: Handle::null(), ..tor };
    match begin_progress_next(&mut bridge, &null) {
        ProgressPoll::Done(text) => assert_eq!(text, "No progress"),
        ProgressPoll::Wait(_) => panic!("the null handle stands for nothing"),
    }
    assert!(bridge.is_parked(tor.progress_sender, HandleKind::ProgressSend));
    assert!(bridge.is_parked(tor.progress_receiver, HandleKind::ProgressReceive));
}

#[test]
fn ending_a_poll_that_never_began_changes_nothing() {
    let mut bridge: Bridge<u8, String> = Bridge::new();
    let tor = bundle_with_channel(&mut bridge);
    let (_stray_sender, stray_receiver) = open_progress_channel();
    let text = arti_progress_next(&mut bridge, &tor, stray_receiver, Some("stray".to_string()));
    assert_eq!(text, "stray");
    assert!(bridge.is_parked(tor.progress_receiver, HandleKind::ProgressReceive));
    publish(&bridge, &tor, "real");
    assert_eq!(poll(&mut bridge, &tor), "real");
}
