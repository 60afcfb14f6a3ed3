use crossbeam::sync::Parker;
use crossbeam::thread::scope;
use ly_events::channel::{
    wait_any_new, wait_any_new_timeout, EventWaiter, SyncEventChannel,
};
use ly_events::signal::SignalEvent;
use std::sync::atomic::{AtomicBool, AtomicUsize, Ordering};
use std::time::{Duration, Instant};

#[derive(Debug, Default, PartialEq, Eq)]
struct TestEvent {
    data: usize,
}

fn sleep_ms(ms: u64) {
    Parker::new().park_timeout(Duration::from_millis(ms));
}

/// Polls until the condition holds, for at most ten seconds.
fn eventually(cond: impl Fn() -> bool) -> bool {
    let start = Instant::now();
    while !cond() {
        if start.elapsed() > Duration::from_secs(10) {
            return false;
        }
        sleep_ms(1);
    }
    true
}

#[test]
fn signal_001() {
    let total = AtomicUsize::new(0);
    let signal = SignalEvent::new();

    scope(|s| {
        s.spawn(|_| {
            for _ in 1..3 {
                signal.wait();
                total.fetch_add(1, Ordering::SeqCst);
            }
        });

        assert!(total.load(Ordering::SeqCst).eq(&0));

        for i in 1..3 {
            // a signal does not reach a thread that waits later
            assert!(eventually(|| signal.waiter_count() == 1));
            signal.signal();
            assert!(eventually(|| total.load(Ordering::SeqCst) == i));
            assert!(total.load(Ordering::SeqCst).eq(&i));
        }
    })
    .unwrap();
    assert_eq!(signal.waiter_count(), 0);
}

#[test]
fn signal_without_waiters_is_not_remembered() {
    let signal = SignalEvent::new();
    signal.signal();
    signal.signal();
    assert_eq!(signal.waiter_count(), 0);
    let woke = AtomicBool::new(false);
    scope(|s| {
        s.spawn(|_| {
            signal.wait();
            woke.store(true, Ordering::SeqCst);
        });
        assert!(eventually(|| signal.waiter_count() == 1));
        sleep_ms(20);
        assert!(!woke.load(Ordering::SeqCst));
        signal.signal();
    })
    .unwrap();
    assert!(woke.load(Ordering::SeqCst));
}

#[test]
fn sync_001() {
    let channel = SyncEventChannel::<TestEvent>::default();
    let total = AtomicUsize::new(0);

    scope(|s| {
        s.spawn(|_| {
            let writer = channel.get_writer();
            for i in 0..10 {
                let event = TestEvent { data: 2 * i };
                assert!(writer.send(event));
                sleep_ms(1);
            }
        });

        s.spawn(|_| {
            let mut rec = channel.get_reader();
            rec.wait_new();
            loop {
                let writing = rec.channel_has_writers();
                sleep_ms(5);
                rec.flush_channel();
                for e in rec.read().as_slice() {
                    total.fetch_add(e.data, Ordering::SeqCst);
                }
                if !writing {
                    break;
                }
            }
        });
    })
    .unwrap();
    assert!(total.load(Ordering::SeqCst).eq(&90));
}

#[test]
/// test waiting for new events
fn sync_002() {
    let channel = SyncEventChannel::<()>::default();
    let total = AtomicUsize::new(0);

    scope(|s| {
        s.spawn(|_| {
            let writer = channel.get_writer();
            for i in 1..11 {
                writer.send(());
                assert!(eventually(|| total.load(Ordering::SeqCst) >= i));
                assert!(total.load(Ordering::SeqCst).eq(&i));
            }
        });

        s.spawn(|_| {
            let mut rec = channel.get_reader();
            for _ in 1..11 {
                rec.wait_new();
                rec.flush_channel();
                for _ in rec.read().as_slice() {
                    total.fetch_add(1, Ordering::SeqCst);
                }
            }
        });
    })
    .unwrap();
    assert!(total.load(Ordering::SeqCst).eq(&10));
}

#[test]
/// test waiting for flush
fn sync_003() {
    let channel = SyncEventChannel::<()>::default();
    let total = AtomicUsize::new(0);

    scope(|s| {
        s.spawn(|_| {
            let writer = channel.get_writer();
            for i in 1..11 {
                writer.send(());
                // two readers should update when main thread flushes
                assert!(eventually(|| total.load(Ordering::SeqCst) >= i * 2));
                assert!(total.load(Ordering::SeqCst).eq(&(i * 2)));
            }
        });

        for _ in 0..2 {
            s.spawn(|_| {
                let mut rec = channel.get_reader();
                for _ in 1..11 {
                    rec.wait_flushed();
                    for _ in rec.read().as_slice() {
                        total.fetch_add(1, Ordering::SeqCst);
                    }
                }
            });
        }

        let rec = channel.get_reader();
        for _ in 1..11 {
            rec.wait_new();
            rec.flush_channel();
        }
    })
    .unwrap();
    assert!(total.load(Ordering::SeqCst).eq(&20));
}

#[test]
/// test dropping the writer
fn sync_004() {
    let channel = SyncEventChannel::<()>::default();
    let total = AtomicUsize::new(0);

    scope(|s| {
        s.spawn(|_| {
            let writer = channel.get_writer();
            for i in 1..11 {
                writer.send(());
                assert!(eventually(|| total.load(Ordering::SeqCst) >= i));
                assert!(total.load(Ordering::SeqCst).eq(&i));
            }
        });

        s.spawn(|_| {
            let mut rec = channel.get_reader();
            for _ in 1..11 {
                rec.wait_new();
                rec.flush_channel();
                for _ in rec.read().as_slice() {
                    total.fetch_add(1, Ordering::SeqCst);
                }
            }
        });
    })
    .unwrap();
    assert!(total.load(Ordering::SeqCst).eq(&10));
    assert!(!channel.get_reader().channel_has_writers());
}

#[test]
fn sync_channel_flow_on_one_thread() {
    let channel = SyncEventChannel::<i32>::default();
    let writer = channel.get_writer();
    let mut reader = channel.get_reader();
    assert!(!channel.has_new_events());
    assert!(writer.send(1));
    assert!(writer.send(2));
    assert!(writer.send(3));
    assert!(channel.has_new_events());
    {
        let batch = reader.read();
        assert!(!batch.is_fresh());
        assert_eq!(batch.as_slice(), &[] as &[i32]);
        assert_eq!(batch.len(), 0);
    }
    channel.flush();
    assert!(!channel.has_new_events());
    {
        let batch = reader.read();
        assert!(batch.is_fresh());
        assert_eq!(batch.as_slice(), &[1, 2, 3]);
        assert_eq!(batch.len(), 3);
    }
    assert_eq!(reader.read().as_slice(), &[] as &[i32]);
    assert!(writer.send(4));
    reader.flush_channel();
    let mut brand_new = channel.get_reader();
    assert_eq!(brand_new.read().as_slice(), &[4]);
    assert_eq!(reader.read().as_slice(), &[4]);
    assert_eq!(brand_new.read().as_slice(), &[] as &[i32]);
}

#[test]
fn sync_unread_generation_is_lost_by_second_flush() {
    let channel = SyncEventChannel::<char>::default();
    let writer = channel.get_writer();
    let mut reader = channel.get_reader();
    writer.send('A');
    channel.flush();
    writer.send('B');
    channel.flush();
    assert_eq!(reader.read().as_slice(), &['B']);
    assert_eq!(reader.read().as_slice(), &[] as &[char]);
}

#[test]
fn two_batches_share_the_read_lock() {
    let channel = SyncEventChannel::<u8>::default();
    let writer = channel.get_writer();
    writer.send(5);
    channel.flush();
    let mut first = channel.get_reader();
    let mut second = channel.get_reader();
    let a = first.read();
    let b = second.read();
    assert_eq!(a.as_slice(), &[5]);
    assert_eq!(b.as_slice(), &[5]);
}

#[test]
fn writers_of_a_sync_channel_are_counted() {
    let channel = SyncEventChannel::<u8>::default();
    let reader = channel.get_reader();
    assert!(!reader.channel_has_writers());
    let first = channel.get_writer();
    let second = channel.get_writer();
    assert!(reader.channel_has_writers());
    drop(first);
    assert!(reader.channel_has_writers());
    drop(second);
    assert!(!reader.channel_has_writers());
}

#[test]
fn wait_new_returns_at_once_when_events_are_pending() {
    let channel = SyncEventChannel::<u8>::default();
    let writer = channel.get_writer();
    let reader = channel.get_reader();
    writer.send(1);
    reader.wait_new();
    reader.wait_new_timeout(10_000);
    assert_eq!(channel.waiting_for_send(), 0);
}

#[test]
fn wait_new_blocks_until_the_next_send() {
    let channel = SyncEventChannel::<u8>::default();
    let writer = channel.get_writer();
    let woke = AtomicBool::new(false);
    scope(|s| {
        s.spawn(|_| {
            let reader = channel.get_reader();
            reader.wait_new();
            woke.store(true, Ordering::SeqCst);
        });
        assert!(eventually(|| channel.waiting_for_send() == 1));
        sleep_ms(20);
        assert!(!woke.load(Ordering::SeqCst));
        writer.send(9);
        assert!(eventually(|| woke.load(Ordering::SeqCst)));
    })
    .unwrap();
    assert_eq!(channel.waiting_for_send(), 0);
}

#[test]
fn wait_new_timeout_gives_up() {
    let channel = SyncEventChannel::<u8>::default();
    let reader = channel.get_reader();
    let start = Instant::now();
    reader.wait_new_timeout(30);
    assert!(start.elapsed() >= Duration::from_millis(25));
    assert!(!channel.has_new_events());
}

#[test]
fn wait_flushed_returns_at_once_with_an_unread_generation() {
    let channel = SyncEventChannel::<u8>::default();
    let writer = channel.get_writer();
    let mut reader = channel.get_reader();
    writer.send(1);
    channel.flush();
    reader.wait_flushed();
    assert_eq!(channel.waiting_for_flush(), 0);
    assert_eq!(reader.read().as_slice(), &[1]);
}

#[test]
fn wait_flushed_blocks_until_the_next_flush() {
    let channel = SyncEventChannel::<u8>::default();
    let writer = channel.get_writer();
    let seen = AtomicUsize::new(0);
    scope(|s| {
        s.spawn(|_| {
            let mut reader = channel.get_reader();
            reader.wait_flushed();
            seen.store(reader.read().len() + 100, Ordering::SeqCst);
        });
        assert!(eventually(|| channel.waiting_for_flush() == 1));
        writer.send(1);
        writer.send(2);
        sleep_ms(20);
        assert_eq!(seen.load(Ordering::SeqCst), 0);
        channel.flush();
        assert!(eventually(|| seen.load(Ordering::SeqCst) != 0));
    })
    .unwrap();
    assert_eq!(seen.load(Ordering::SeqCst), 102);
    assert_eq!(channel.waiting_for_flush(), 0);
}

#[test]
fn dropping_the_last_writer_wakes_every_waiter() {
    let channel = SyncEventChannel::<u8>::default();
    let first = channel.get_writer();
    let second = channel.get_writer();
    let woken = AtomicUsize::new(0);
    scope(|s| {
        s.spawn(|_| {
            let reader = channel.get_reader();
            reader.wait_new();
            assert!(!reader.channel_has_writers());
            woken.fetch_add(1, Ordering::SeqCst);
        });
        s.spawn(|_| {
            let reader = channel.get_reader();
            reader.wait_flushed();
            assert!(!reader.channel_has_writers());
            woken.fetch_add(1, Ordering::SeqCst);
        });
        assert!(eventually(|| channel.waiting_for_send() == 1));
        assert!(eventually(|| channel.waiting_for_flush() == 1));
        drop(first);
        sleep_ms(20);
        assert_eq!(woken.load(Ordering::SeqCst), 0);
        drop(second);
        assert!(eventually(|| woken.load(Ordering::SeqCst) == 2));
    })
    .unwrap();
    assert_eq!(channel.waiting_for_send(), 0);
    assert_eq!(channel.waiting_for_flush(), 0);
}

#[test]
fn add_unparker_new_refuses_when_events_are_pending() {
    let channel = SyncEventChannel::<u8>::default();
    let writer = channel.get_writer();
    let reader = channel.get_reader();
    let p = Parker::new();
    assert_eq!(reader.add_unparker_new(&p), Ok(()));
    assert_eq!(channel.waiting_for_send(), 1);
    writer.send(1);
    assert_eq!(channel.waiting_for_send(), 0);
    // the send has made the token available
    let start = Instant::now();
    p.park_timeout(Duration::from_secs(10));
    assert!(start.elapsed() < Duration::from_secs(5));
    assert_eq!(
        reader.add_unparker_new(&p),
        Err("already new unflushed events".to_string())
    );
    assert_eq!(channel.waiting_for_send(), 0);
}

#[test]
fn wait_any_new_returns_at_once_when_a_channel_has_events() {
    let numbers = SyncEventChannel::<u8>::default();
    let words = SyncEventChannel::<String>::default();
    let writer = words.get_writer();
    writer.send("ready".to_string());
    let reader1 = numbers.get_reader();
    let reader2 = words.get_reader();
    let readers: [&dyn EventWaiter; 2] = [&reader1, &reader2];
    wait_any_new(&readers);
    wait_any_new_timeout(&readers, 10_000);
    assert!(words.has_new_events());
    assert!(!numbers.has_new_events());
    // the channel asked first has registered the parker both times
    assert_eq!(numbers.waiting_for_send(), 2);
    assert_eq!(words.waiting_for_send(), 0);
}

#[test]
fn wait_any_new_wakes_on_a_send_to_any_channel() {
    let numbers = SyncEventChannel::<u8>::default();
    let words = SyncEventChannel::<String>::default();
    let woke = AtomicBool::new(false);
    scope(|s| {
        s.spawn(|_| {
            let reader1 = numbers.get_reader();
            let reader2 = words.get_reader();
            let readers: [&dyn EventWaiter; 2] = [&reader1, &reader2];
            wait_any_new(&readers);
            woke.store(true, Ordering::SeqCst);
        });
        assert!(eventually(|| {
            numbers.waiting_for_send() == 1 && words.waiting_for_send() == 1
        }));
        sleep_ms(20);
        assert!(!woke.load(Ordering::SeqCst));
        words.get_writer().send("go".to_string());
        assert!(eventually(|| woke.load(Ordering::SeqCst)));
    })
    .unwrap();
    assert!(words.has_new_events());
    assert!(!numbers.has_new_events());
}

#[test]
fn wait_any_new_timeout_gives_up() {
    let numbers = SyncEventChannel::<u8>::default();
    let reader = numbers.get_reader();
    let readers: [&dyn EventWaiter; 1] = [&reader];
    let start = Instant::now();
    wait_any_new_timeout(&readers, 30);
    assert!(start.elapsed() >= Duration::from_millis(25));
    let none: [&dyn EventWaiter; 0] = [];
    wait_any_new_timeout(&none, 1);
}
