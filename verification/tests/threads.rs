use crossbeam_utils::thread::scope;
use primitives::channel::channel;
use primitives::mutex::Mutex;
use std::time::Duration;
use std::time::Instant;

fn pause(millis: u64) {
    let started = Instant::now();
    while started.elapsed() < Duration::from_millis(millis) {
        std::hint::spin_loop();
    }
}

#[test]
fn recv_blocks_until_last_sender_drops() {
    let (tx, mut rx) = channel::<u8>();
    let second = tx.clone();
    let third = tx.clone();
    drop(tx);
    drop(second);
    scope(|s| {
        s.spawn(move |_| {
            pause(100);
            drop(third);
        });
        let started = Instant::now();
        assert_eq!(rx.recv(), None);
        assert!(started.elapsed() >= Duration::from_millis(50));
    })
    .unwrap();
}

#[test]
fn recv_blocks_until_a_send() {
    let (mut tx, mut rx) = channel::<u32>();
    scope(|s| {
        s.spawn(move |_| {
            pause(100);
            tx.send(5);
            pause(100);
            tx.send(6);
        });
        let started = Instant::now();
        assert_eq!(rx.recv(), Some(5));
        assert!(started.elapsed() >= Duration::from_millis(50));
        assert_eq!(rx.recv(), Some(6));
        assert_eq!(rx.recv(), None);
    })
    .unwrap();
}

#[test]
fn every_blocked_receiver_wakes_on_close() {
    let (tx, rx) = channel::<u32>();
    scope(|s| {
        let mut waiting = Vec::new();
        for _ in 0..3 {
            let mut rx = rx.clone();
            waiting.push(s.spawn(move |_| rx.recv()));
        }
        pause(100);
        drop(tx);
        for handle in waiting {
            assert_eq!(handle.join().unwrap(), None);
        }
    })
    .unwrap();
}

#[test]
fn many_senders_one_receiver() {
    let (tx, mut rx) = channel::<(u32, u32)>();
    scope(|s| {
        for id in 0..4 {
            let mut tx = tx.clone();
            s.spawn(move |_| {
                for n in 0..250 {
                    tx.send((id, n));
                }
            });
        }
        drop(tx);
        let mut next = [0u32; 4];
        let mut total = 0;
        while let Some((id, n)) = rx.recv() {
            assert_eq!(n, next[id as usize]);
            next[id as usize] += 1;
            total += 1;
        }
        assert_eq!(total, 1000);
        assert_eq!(next, [250; 4]);
    })
    .unwrap();
}

#[test]
fn test_mutex() {
    let t: &'static _ = Box::leak(Box::new(Mutex::new(0)));

    scope(|s| {
        let handles: Vec<_> = (0..10)
            .map(|_| {
                s.spawn(move |_| {
                    for _ in 0..100 {
                        t.with_lock(|v| {
                            *v += 1;
                        })
                    }
                })
            })
            .collect();

        for handle in handles {
            handle.join().unwrap();
        }
    })
    .unwrap();

    assert_eq!(t.with_lock(|v| *v), 10 * 100);
}
