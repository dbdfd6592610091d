use bui_backend::change_tracker::ChangeTracker;
use bui_backend::demo::Shared;
use futures::StreamExt;

fn store(val: usize) -> Shared {
    Shared {
        is_recording: false,
        counter: val,
        name: "".to_string(),
    }
}

#[test]
fn test_change_tracker() {
    let mut data_store = ChangeTracker::new(store(123));
    let mut rx = data_store.get_changes(1);

    data_store.modify(|scoped_store: &Shared| {
        assert!(scoped_store.counter == 123);
        let mut new_value = store(scoped_store.counter);
        new_value.counter += 1;
        new_value
    });

    match futures::executor::block_on(rx.next()) {
        Some((old_value, new_value)) => {
            assert!(old_value.counter == 123);
            assert!(new_value.counter == 124);
        }
        None => panic!("should not get here"),
    }

    assert!(data_store.as_ref().counter == 124);
}

#[test]
fn test_dropped_rx() {
    let mut data_store = ChangeTracker::new(store(123));

    {
        let _rx = data_store.get_changes(1);
        // drop rx at end of this scope
    }

    data_store.modify(|scoped_store: &Shared| {
        assert!(scoped_store.counter == 123);
        let mut new_value = store(scoped_store.counter);
        new_value.counter += 1;
        new_value
    });

    assert!(data_store.as_ref().counter == 124);
}

#[test]
fn test_multiple_changes_no_rx() {
    let mut data_store = ChangeTracker::new(store(123));
    let rx = data_store.get_changes(1);
    let _rx_printer = rx.for_each(|_| -> futures::future::Ready<()> {
        panic!("receiver should not be called");
    });

    data_store.modify(|scoped_store: &Shared| {
        let mut new_value = store(scoped_store.counter);
        new_value.counter += 1;
        new_value
    });
    data_store.modify(|scoped_store: &Shared| {
        let mut new_value = store(scoped_store.counter);
        new_value.counter += 1;
        new_value
    });

    assert!(data_store.as_ref().counter == 125);
}

#[test]
fn modify_without_change_notifies_nobody() {
    let mut data_store = ChangeTracker::new(store(5));
    let mut rx = data_store.get_changes(4);
    data_store.modify(|s: &Shared| store(s.counter));
    data_store.modify(|s: &Shared| {
        let mut n = store(s.counter);
        n.counter = 6;
        n
    });
    // Only the value-changing modification is delivered.
    let (old_value, new_value) = futures::executor::block_on(rx.next()).unwrap();
    assert_eq!(old_value.counter, 5);
    assert_eq!(new_value.counter, 6);
}

#[test]
fn subscriber_sees_changes_in_order() {
    let mut data_store = ChangeTracker::new(store(0));
    let mut rx = data_store.get_changes(8);
    for i in 0..3usize {
        data_store.modify(|s: &Shared| {
            let mut n = store(s.counter);
            n.counter = i + 1;
            n
        });
    }
    for i in 0..3usize {
        let (old_value, new_value) = futures::executor::block_on(rx.next()).unwrap();
        assert_eq!(old_value.counter, i);
        assert_eq!(new_value.counter, i + 1);
    }
}

#[test]
fn full_buffer_drops_subscriber() {
    let mut data_store = ChangeTracker::new(store(0));
    let mut rx = data_store.get_changes(1);
    // The buffer takes one pending pair plus one slot; fill it and keep
    // modifying: the subscriber is dropped, later changes never arrive.
    for i in 0..5usize {
        data_store.modify(|s: &Shared| {
            let mut n = store(s.counter);
            n.counter = i + 1;
            n
        });
    }
    assert_eq!(data_store.as_ref().counter, 5);
    let mut received = Vec::new();
    while let Ok((o, n)) = rx.try_recv() {
        received.push((o.counter, n.counter));
    }
    // A prefix of the changes, in order.
    for (i, (o, n)) in received.iter().enumerate() {
        assert_eq!(*o, i);
        assert_eq!(*n, i + 1);
    }
    assert!(received.len() < 5);
}
