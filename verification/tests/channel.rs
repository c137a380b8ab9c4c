use primitives::channel::channel;
use primitives::channel::Inner;
use primitives::model::Taken;
use std::collections::VecDeque;

#[test]
fn ping_pong() {
    let (mut tx, mut rx) = channel();
    tx.send(11);
    assert_eq!(rx.recv(), Some(11));
}

#[test]
fn closed_tx() {
    let (tx, mut rx) = channel::<()>();
    drop(tx);
    assert_eq!(rx.recv(), None);
}

#[test]
fn closed_rx() {
    let (mut tx, rx) = channel();
    drop(rx);
    tx.send(11);
}

#[test]
fn open_until_last_sender_drops() {
    let (tx, mut rx) = channel::<u8>();
    let second = tx.clone();
    let mut third = tx.clone();
    drop(tx);
    drop(second);
    third.send(7);
    assert_eq!(rx.recv(), Some(7));
    drop(third);
    assert_eq!(rx.recv(), None);
}

#[test]
fn five_sent_then_received_in_order() {
    let (mut tx, mut rx) = channel();
    for i in 1..=5 {
        tx.send(i);
    }
    assert_eq!(rx.recv(), Some(1));
    // The other four are now in the receiver's own buffer: a value sent
    // after them is the only one that a second receiver finds.
    let mut other = rx.clone();
    tx.send(6);
    assert_eq!(other.recv(), Some(6));
    assert_eq!(rx.recv(), Some(2));
    assert_eq!(rx.recv(), Some(3));
    assert_eq!(rx.recv(), Some(4));
    assert_eq!(rx.recv(), Some(5));
    drop(tx);
    assert_eq!(rx.recv(), None);
    assert_eq!(other.recv(), None);
}

#[test]
fn order_holds_across_senders() {
    let (mut a, mut rx) = channel();
    let mut b = a.clone();
    a.send("a1");
    b.send("b1");
    a.send("a2");
    b.send("b2");
    assert_eq!(rx.recv(), Some("a1"));
    a.send("a3");
    assert_eq!(rx.recv(), Some("b1"));
    assert_eq!(rx.recv(), Some("a2"));
    assert_eq!(rx.recv(), Some("b2"));
    assert_eq!(rx.recv(), Some("a3"));
}

#[test]
fn closed_channel_drains_then_stays_closed() {
    let (mut tx, mut rx) = channel();
    tx.send(1);
    tx.send(2);
    drop(tx);
    assert_eq!(rx.recv(), Some(1));
    assert_eq!(rx.recv(), Some(2));
    assert_eq!(rx.recv(), None);
    assert_eq!(rx.recv(), None);
    assert_eq!(rx.recv(), None);
}

#[test]
fn cloned_receiver_starts_with_an_empty_buffer() {
    let (mut tx, mut rx) = channel();
    tx.send(1);
    tx.send(2);
    tx.send(3);
    assert_eq!(rx.recv(), Some(1));
    let mut other = rx.clone();
    drop(tx);
    assert_eq!(other.recv(), None);
    assert_eq!(rx.recv(), Some(2));
    assert_eq!(rx.recv(), Some(3));
    assert_eq!(rx.recv(), None);
}

#[test]
fn values_survive_while_a_receiver_lives() {
    let (mut tx, mut rx) = channel();
    tx.send(String::from("kept"));
    drop(tx);
    assert_eq!(rx.recv(), Some(String::from("kept")));
}

#[test]
fn step_on_new_state_has_to_wait() {
    let mut inner = Inner::<u8>::new();
    let mut buffer = VecDeque::new();
    assert!(inner.must_wait());
    assert!(matches!(inner.take(&mut buffer), Taken::Empty));
    assert!(buffer.is_empty());
}

#[test]
fn step_takes_oldest_and_moves_the_rest() {
    let mut inner = Inner::new();
    for i in 1..=5 {
        inner.enqueue(i);
    }
    let mut buffer = VecDeque::new();
    assert!(!inner.must_wait());
    assert!(matches!(inner.take(&mut buffer), Taken::Item(1)));
    assert_eq!(buffer, VecDeque::from(vec![2, 3, 4, 5]));
    buffer.clear();
    assert!(inner.must_wait());
    assert!(matches!(inner.take(&mut buffer), Taken::Empty));
}

#[test]
fn step_with_one_value_leaves_the_buffer_empty() {
    let mut inner = Inner::new();
    inner.enqueue('x');
    let mut buffer = VecDeque::new();
    assert!(matches!(inner.take(&mut buffer), Taken::Item('x')));
    assert!(buffer.is_empty());
}

#[test]
fn step_reports_closed_only_when_drained() {
    let mut inner = Inner::new();
    inner.enqueue(9);
    assert!(inner.detach());
    assert!(!inner.must_wait());
    let mut buffer = VecDeque::new();
    assert!(matches!(inner.take(&mut buffer), Taken::Item(9)));
    assert!(!inner.must_wait());
    assert!(matches!(inner.take(&mut buffer), Taken::Closed));
    assert!(matches!(inner.take(&mut buffer), Taken::Closed));
}

#[test]
fn detach_reports_the_last_sender() {
    let mut inner = Inner::<u8>::new();
    inner.attach();
    inner.attach();
    assert!(!inner.detach());
    assert!(!inner.detach());
    assert!(inner.detach());
    assert!(inner.detach());
}

#[test]
fn taken_as_option() {
    assert_eq!(Taken::Item(3).into_option(), Some(3));
    assert_eq!(Taken::<u8>::Closed.into_option(), None);
    assert_eq!(Taken::<u8>::Empty.into_option(), None);
}
