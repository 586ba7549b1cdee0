use std::sync::mpsc;
use std::time::Duration;

use deadpool::runtime::{spawn_blocking_background, Runtime, SpawnBlockingError};

#[test]
fn spawn_blocking_background_tokio() {
    let rt = tokio::runtime::Builder::new_multi_thread()
        .worker_threads(1)
        .build()
        .unwrap();
    let _guard = rt.enter();
    let (tx, rx) = mpsc::channel();
    let r = spawn_blocking_background(Runtime::Tokio1, move || {
        tx.send(42u32).unwrap();
    });
    assert!(r.is_ok());
    assert_eq!(rx.recv_timeout(Duration::from_secs(10)).unwrap(), 42);
}

#[test]
fn spawn_blocking_background_async_std() {
    let (tx, rx) = mpsc::channel();
    let r = spawn_blocking_background(Runtime::AsyncStd1, move || {
        tx.send(7u32).unwrap();
    });
    assert!(r.is_ok());
    assert_eq!(rx.recv_timeout(Duration::from_secs(10)).unwrap(), 7);
}

#[test]
fn spawn_blocking_background_smol() {
    let (tx, rx) = mpsc::channel();
    let r = spawn_blocking_background(Runtime::Smol2, move || {
        tx.send(9u32).unwrap();
    });
    assert!(r.is_ok());
    assert_eq!(rx.recv_timeout(Duration::from_secs(10)).unwrap(), 9);
}

#[test]
fn spawn_blocking_error_describe() {
    assert_eq!(
        SpawnBlockingError::Panic(String::from("boom")).describe(),
        "spawned blocking task panicked"
    );
    assert_eq!(
        SpawnBlockingError::Cancelled.describe(),
        "spawned blocking task was cancelled"
    );
}
