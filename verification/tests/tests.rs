use dropbear::{DropBear, DropBearHandle, DropBearRecvError};

#[test]
fn drop_notifications() {
    let (container, notify) = DropBear::new(17u64);
    assert_eq!(*container.get(), 17u64);
    drop(container);
    let res = notify.recv().unwrap();
    assert_eq!(res, 17u64);
}

#[test]
fn into_inner_notifies_abort() {
    let (container, notify) = DropBear::new(23i32);
    assert_eq!(container.into_inner(), 23i32);
    // We intentionally avoid dropping the container here: into_inner alone
    // must already have consumed it and torn the sending end down.
    notify.recv().err().unwrap();
}

#[test]
fn drop_concurrent_with_await() {
    let rt = tokio::runtime::Builder::new_current_thread().build().unwrap();
    rt.block_on(async {
        let (container, notify) = DropBear::new(5u8);
        let disposer = tokio::spawn(async move {
            tokio::task::yield_now().await;
            drop(container);
        });
        // The receive is already being awaited when the other task disposes
        // the container; it must still resolve with the delivered value.
        let outcome = notify.into_receiver().await;
        assert_eq!(DropBearHandle::interpret(outcome), Ok(5u8));
        disposer.await.unwrap();
    });
}

#[test]
fn extract_error_is_sender_dropped() {
    let (container, notify) = DropBear::new(1u8);
    let _ = container.into_inner();
    assert_eq!(notify.recv(), Err(DropBearRecvError::SenderDropped));
}

#[test]
fn abandoned_handle_discard_is_silent() {
    let (container, notify) = DropBear::new(String::from("discarded"));
    drop(notify);
    // Disposing with the handle already abandoned must neither panic nor
    // block; the value is simply discarded.
    drop(container);
}

#[test]
fn abandoned_handle_then_extract() {
    let (container, notify) = DropBear::new(42u64);
    drop(notify);
    assert_eq!(container.into_inner(), 42u64);
}

#[test]
fn delivery_reflects_writes() {
    let (mut container, notify) = DropBear::new(100u32);
    container.set(200u32);
    assert_eq!(*container.get(), 200u32);
    drop(container);
    assert_eq!(notify.recv(), Ok(200u32));
}

#[test]
fn get_mut_writes_are_observed() {
    let (mut container, notify) = DropBear::new(String::from("before"));
    container.get_mut().push_str(" and after");
    assert_eq!(container.get().as_str(), "before and after");
    drop(container);
    assert_eq!(notify.recv().unwrap(), String::from("before and after"));
}

#[test]
fn heap_value_round_trips_exactly() {
    let payload = String::from("owned payload");
    let (container, notify) = DropBear::new(payload.clone());
    drop(container);
    assert_eq!(notify.recv().unwrap(), payload);
}

#[test]
fn interpret_maps_closed_channel_to_sender_dropped() {
    let (container, notify) = DropBear::new(9u16);
    let _ = container.into_inner();
    // Resolve through the raw receiving end: the channel reports the torn
    // down sender, and interpret turns that into the one failure kind.
    let outcome = notify.into_receiver().blocking_recv();
    assert!(outcome.is_err());
    assert_eq!(
        DropBearHandle::interpret(outcome),
        Err(DropBearRecvError::SenderDropped)
    );
}
